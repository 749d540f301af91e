//! The identity a client reports of itself.

use vstd::prelude::*;
use core::cmp::Ordering;
use vstd::string::StringExecFns;
use crate::text::{chars_of, decimal_text, port_of_text, push_decimal, read_port, text_between};

verus! {

/// The name used when a client gives none.
pub const CLIENT_NAME: &'static str = "test";

/// The datagram port used when a client gives none.
pub const UDP_PORT: u16 = 2000;

/// A participant: its self-reported name and the datagram port it listens on.
#[derive(Debug, Ord, Hash)]
pub struct ClientInfo {
    pub name: String,
    pub port: u16,
}

/// What a [`ClientInfo`] is in contracts: the characters of the name, and the port.
pub struct ClientInfoView {
    pub name: Seq<char>,
    pub port: u16,
}

impl View for ClientInfo {
    type V = ClientInfoView;

    open spec fn view(&self) -> ClientInfoView {
        ClientInfoView { name: self.name@, port: self.port }
    }
}

impl Clone for ClientInfo {
    fn clone(&self) -> (copy: Self)
        ensures
            copy == *self,
    {
        ClientInfo { name: self.name.clone(), port: self.port }
    }
}

impl PartialEq for ClientInfo {
    fn eq(&self, other: &Self) -> (same: bool) {
        self.name == other.name && self.port == other.port
    }
}

impl Eq for ClientInfo {}

impl vstd::std_specs::cmp::PartialEqSpecImpl for ClientInfo {
    open spec fn obeys_eq_spec() -> bool {
        true
    }

    open spec fn eq_spec(&self, other: &Self) -> bool {
        self@ == other@
    }
}

/// The order of two texts: the first character in which they differ
/// decides, and a text comes before every text it begins.
pub open spec fn text_order(a: Seq<char>, b: Seq<char>) -> Ordering
    decreases a.len(),
{
    if a.len() == 0 {
        if b.len() == 0 {
            Ordering::Equal
        } else {
            Ordering::Less
        }
    } else if b.len() == 0 {
        Ordering::Greater
    } else if a[0] < b[0] {
        Ordering::Less
    } else if a[0] > b[0] {
        Ordering::Greater
    } else {
        text_order(a.drop_first(), b.drop_first())
    }
}

/// The order of two clients: by name, then by port.
pub open spec fn client_order(a: ClientInfoView, b: ClientInfoView) -> Ordering {
    match text_order(a.name, b.name) {
        Ordering::Less => Ordering::Less,
        Ordering::Greater => Ordering::Greater,
        Ordering::Equal => if a.port < b.port {
            Ordering::Less
        } else if a.port > b.port {
            Ordering::Greater
        } else {
            Ordering::Equal
        },
    }
}

/// The order of two texts.
pub fn order_texts(a: &str, b: &str) -> (order: Ordering)
    ensures
        order == text_order(a@, b@),
{
    let x = chars_of(a);
    let y = chars_of(b);
    let mut i: usize = 0;
    assert(x@.skip(0) == x@ && y@.skip(0) == y@);
    while i < x.len() && i < y.len()
        invariant
            i <= x.len(),
            i <= y.len(),
            x@ == a@,
            y@ == b@,
            text_order(x@, y@) == text_order(x@.skip(i + 0), y@.skip(i + 0)),
        decreases x.len() - i,
    {
        proof {
            assert(x@.skip(i + 0)[0] == x@[i + 0]);
            assert(y@.skip(i + 0)[0] == y@[i + 0]);
            assert(x@.skip(i + 0).drop_first() == x@.skip(i + 1));
            assert(y@.skip(i + 0).drop_first() == y@.skip(i + 1));
        }
        if x[i] < y[i] {
            return Ordering::Less;
        }
        if x[i] > y[i] {
            return Ordering::Greater;
        }
        i += 1;
    }
    proof {
        assert(x@.skip(i + 0).len() == x.len() - i);
        assert(y@.skip(i + 0).len() == y.len() - i);
    }
    if i < y.len() {
        Ordering::Less
    } else if i < x.len() {
        Ordering::Greater
    } else {
        Ordering::Equal
    }
}

impl PartialOrd for ClientInfo {
    fn partial_cmp(&self, other: &Self) -> (order: Option<Ordering>) {
        match order_texts(self.name.as_str(), other.name.as_str()) {
            Ordering::Less => Some(Ordering::Less),
            Ordering::Greater => Some(Ordering::Greater),
            Ordering::Equal => if self.port < other.port {
                Some(Ordering::Less)
            } else if self.port > other.port {
                Some(Ordering::Greater)
            } else {
                Some(Ordering::Equal)
            },
        }
    }
}

impl vstd::std_specs::cmp::PartialOrdSpecImpl for ClientInfo {
    open spec fn obeys_partial_cmp_spec() -> bool {
        true
    }

    open spec fn partial_cmp_spec(&self, other: &Self) -> Option<Ordering> {
        Some(client_order(self@, other@))
    }
}

/// Where the first `:` at or after `from` stands in `s`; the length of `s`
/// if there is none.
pub open spec fn colon_from(s: Seq<char>, from: int) -> int
    decreases s.len() - from,
{
    if from >= s.len() {
        s.len() as int
    } else if s[from] == ':' {
        from
    } else {
        colon_from(s, from + 1)
    }
}

/// The text `name:port` that shows a client.
pub open spec fn client_text(c: ClientInfoView) -> Seq<char> {
    c.name + seq![':'] + decimal_text(c.port as nat)
}

/// The client that a text of `:`-separated fields names: the first field is
/// the name, the second the port, read as 0 where it is no port number.
pub open spec fn client_of_text(s: Seq<char>) -> ClientInfoView {
    let first = colon_from(s, 0);
    let second = colon_from(s, first + 1);
    ClientInfoView {
        name: s.subrange(0, first),
        port: match port_of_text(s.subrange(first + 1, second)) {
            Some(port) => port,
            None => 0,
        },
    }
}

pub proof fn lemma_colon_from_bounds(s: Seq<char>, from: int)
    requires
        0 <= from,
    ensures
        from <= colon_from(s, from) || s.len() < from,
        colon_from(s, from) <= s.len(),
        colon_from(s, from) < s.len() ==> s[colon_from(s, from)] == ':',
        forall|k: int| from <= k < colon_from(s, from) ==> s[k] != ':',
    decreases s.len() - from,
{
    if from < s.len() && s[from] != ':' {
        lemma_colon_from_bounds(s, from + 1);
    }
}

/// Walks `v` from `from` to the first `:` or the end.
fn find_colon(v: &Vec<char>, from: usize) -> (at: usize)
    requires
        from <= v.len(),
    ensures
        at == colon_from(v@, from as int),
        from <= at <= v.len(),
{
    let mut i: usize = from;
    while i < v.len() && v[i] != ':'
        invariant
            from <= i <= v.len(),
            colon_from(v@, from as int) == colon_from(v@, i as int),
        decreases v.len() - i,
    {
        i += 1;
    }
    i
}

impl ClientInfo {
    pub fn new(name: String, port: u16) -> (c: Self)
        ensures
            c.name == name,
            c.port == port,
    {
        Self { name, port }
    }

    /// The text `name:port`.
    pub fn to_string(&self) -> (s: String)
        ensures
            s@ == client_text(self@),
    {
        let mut s = self.name.clone();
        s.append(":");
        proof {
            reveal_strlit(":");
            assert(":"@ =~= seq![':']);
        }
        push_decimal(&mut s, self.port);
        s
    }

    /// Whether `s` holds the `:` that `from` needs.
    pub fn can_read(s: &str) -> (b: bool)
        ensures
            b == s@.contains(':'),
    {
        let v = chars_of(s);
        let first = find_colon(&v, 0);
        proof {
            lemma_colon_from_bounds(v@, 0);
            if first < v.len() {
                assert(v@[first as int] == ':');
            }
        }
        first < v.len()
    }

    /// Reads a client from `name:port`. A port field that is no port number
    /// reads as 0; fields after the second are ignored.
    pub fn from(s: String) -> (c: Self)
        requires
            s@.contains(':'),
        ensures
            c@ == client_of_text(s@),
    {
        let v = chars_of(s.as_str());
        let first = find_colon(&v, 0);
        proof {
            lemma_colon_from_bounds(v@, 0);
        }
        let second = find_colon(&v, first + 1);
        let name = text_between(s.as_str(), 0, first);
        let port = match read_port(&v, first + 1, second) {
            Some(port) => port,
            None => 0,
        };
        Self { name, port }
    }
}

impl Default for ClientInfo {
    fn default() -> (c: Self)
        ensures
            c@ == (ClientInfoView { name: CLIENT_NAME@, port: UDP_PORT }),
    {
        Self { name: String::from_str(CLIENT_NAME), port: UDP_PORT }
    }
}

pub proof fn lemma_decimal_text_has_no_colon(n: nat)
    ensures
        !decimal_text(n).contains(':'),
    decreases n,
{
    let text = decimal_text(n);
    if n >= 10 {
        lemma_decimal_text_has_no_colon(n / 10);
        assert forall|k: int| 0 <= k < text.len() implies text[k] != ':' by {
            if k < text.len() - 1 {
                assert(text[k] == decimal_text(n / 10)[k]);
                assert(decimal_text(n / 10).contains(text[k]));
            }
        }
    }
}

} // verus!
