//! The session table: who is in the lobby, and under which connection.

use vstd::prelude::*;
use crate::address::Address;
use crate::clientinfo::{ClientInfo, ClientInfoView};

verus! {

/// One session: a client registered under the address of its connection.
#[derive(Debug)]
pub struct Session {
    pub addr: Address,
    pub client: ClientInfo,
}

/// A [`Session`] in contracts.
pub struct SessionView {
    pub addr: Address,
    pub client: ClientInfoView,
}

impl View for Session {
    type V = SessionView;

    open spec fn view(&self) -> SessionView {
        SessionView { addr: self.addr, client: self.client@ }
    }
}

impl Clone for Session {
    fn clone(&self) -> (copy: Self)
        ensures
            copy == *self,
    {
        Session { addr: self.addr, client: self.client.clone() }
    }
}

/// No connection key occurs twice.
pub open spec fn keys_distinct(s: Seq<SessionView>) -> bool {
    forall|i: int, j: int| 0 <= i < j < s.len() ==> s[i].addr != s[j].addr
}

/// Where the session of `addr` stands in `s`; the length of `s` if it has none.
pub open spec fn position(s: Seq<SessionView>, addr: Address) -> int
    decreases s.len(),
{
    if s.len() == 0 {
        0
    } else if s[0].addr == addr {
        0
    } else {
        1 + position(s.drop_first(), addr)
    }
}

/// Whether `addr` has a session in `s`.
pub open spec fn has_session(s: Seq<SessionView>, addr: Address) -> bool {
    position(s, addr) < s.len()
}

/// The client registered under `addr`, if there is one.
pub open spec fn client_at(s: Seq<SessionView>, addr: Address) -> Option<ClientInfoView> {
    if has_session(s, addr) {
        Some(s[position(s, addr)].client)
    } else {
        None
    }
}

/// The table after `client` registers under `addr`: a session that `addr`
/// already has is overwritten in place, a new one goes to the end.
pub open spec fn registered(s: Seq<SessionView>, addr: Address, client: ClientInfoView) -> Seq<
    SessionView,
> {
    if has_session(s, addr) {
        s.update(position(s, addr), SessionView { addr, client })
    } else {
        s.push(SessionView { addr, client })
    }
}

/// The table after the session of `addr` is removed; the same table if it has none.
pub open spec fn unregistered(s: Seq<SessionView>, addr: Address) -> Seq<SessionView> {
    if has_session(s, addr) {
        s.remove(position(s, addr))
    } else {
        s
    }
}

/// The table as a mapping from connection key to client.
pub open spec fn as_map(s: Seq<SessionView>) -> Map<Address, ClientInfoView> {
    Map::new(|addr: Address| has_session(s, addr), |addr: Address| s[position(s, addr)].client)
}

/// How many sessions `addr` has in `s`.
pub open spec fn count_of(s: Seq<SessionView>, addr: Address) -> nat
    decreases s.len(),
{
    if s.len() == 0 {
        0
    } else {
        count_of(s.drop_last(), addr) + if s.last().addr == addr {
            1nat
        } else {
            0nat
        }
    }
}

/// `position` finds the first session of `addr`, and nothing before it has that key.
pub proof fn lemma_position(s: Seq<SessionView>, addr: Address)
    ensures
        0 <= position(s, addr) <= s.len(),
        has_session(s, addr) ==> s[position(s, addr)].addr == addr,
        forall|k: int| 0 <= k < position(s, addr) ==> s[k].addr != addr,
    decreases s.len(),
{
    if s.len() > 0 && s[0].addr != addr {
        let rest = s.drop_first();
        lemma_position(rest, addr);
        assert forall|k: int| 0 <= k < position(s, addr) implies s[k].addr != addr by {
            if k > 0 {
                assert(s[k] == rest[k - 1]);
            }
        }
        if has_session(s, addr) {
            assert(s[position(s, addr)] == rest[position(rest, addr)]);
        }
    }
}

/// A session of `addr` at `k`, with none before it, is where `position` points.
pub proof fn lemma_position_is(s: Seq<SessionView>, addr: Address, k: int)
    requires
        0 <= k <= s.len(),
        k < s.len() ==> s[k].addr == addr,
        forall|j: int| 0 <= j < k ==> s[j].addr != addr,
    ensures
        position(s, addr) == k,
{
    lemma_position(s, addr);
}

/// Registering keeps the keys distinct, binds `addr` to `client`, leaves
/// every other key as it was, and acts on the mapping as insertion does.
pub proof fn lemma_registered(s: Seq<SessionView>, addr: Address, client: ClientInfoView)
    requires
        keys_distinct(s),
    ensures
        keys_distinct(registered(s, addr, client)),
        client_at(registered(s, addr, client), addr) == Some(client),
        forall|other: Address|
            other != addr ==> #[trigger] client_at(registered(s, addr, client), other)
                == client_at(s, other),
        as_map(registered(s, addr, client)) == as_map(s).insert(addr, client),
        registered(s, addr, client).len() == if has_session(s, addr) {
            s.len()
        } else {
            s.len() + 1
        },
{
    let r = registered(s, addr, client);
    lemma_position(s, addr);
    let at = position(s, addr);
    assert(r[at].addr == addr);
    lemma_position_is(r, addr, at);
    assert(forall|j: int| 0 <= j < r.len() && j != at ==> r[j] == s[j]);
    assert forall|other: Address| other != addr implies #[trigger] client_at(r, other)
        == client_at(s, other) by {
        lemma_position(s, other);
        lemma_position(r, other);
        let k = position(s, other);
        let q = position(r, other);
        if k < s.len() {
            assert(k != at);
            assert(r[k] == s[k]);
            assert forall|j: int| 0 <= j < k implies r[j].addr != other by {
                if j != at {
                    assert(r[j] == s[j]);
                }
            }
            lemma_position_is(r, other, k);
        } else if q < r.len() {
            assert(q != at);
            assert(r[q] == s[q]);
        }
    }
    assert(as_map(r) =~= as_map(s).insert(addr, client)) by {
        assert forall|a: Address| as_map(r).dom().contains(a) <==> as_map(s).insert(
            addr,
            client,
        ).dom().contains(a) by {
            if a != addr {
                assert(client_at(r, a) == client_at(s, a));
            }
        }
        assert forall|a: Address| as_map(r).dom().contains(a) implies as_map(r)[a] == as_map(
            s,
        ).insert(addr, client)[a] by {
            if a != addr {
                assert(client_at(r, a) == client_at(s, a));
            }
        }
    }
}

/// Removing a session keeps the keys distinct, leaves `addr` without a
/// session, and acts on the mapping as removal does.
pub proof fn lemma_unregistered(s: Seq<SessionView>, addr: Address)
    requires
        keys_distinct(s),
    ensures
        keys_distinct(unregistered(s, addr)),
        !has_session(unregistered(s, addr), addr),
        forall|k: int| 0 <= k < unregistered(s, addr).len() ==> unregistered(s, addr)[k].addr != addr,
        forall|other: Address|
            other != addr ==> #[trigger] client_at(unregistered(s, addr), other) == client_at(
                s,
                other,
            ),
        as_map(unregistered(s, addr)) == as_map(s).remove(addr),
        unregistered(s, addr).len() == if has_session(s, addr) {
            s.len() - 1
        } else {
            s.len() as int
        },
{
    let r = unregistered(s, addr);
    lemma_position(s, addr);
    let at = position(s, addr);
    assert forall|k: int| 0 <= k < r.len() implies r[k].addr != addr by {
        if has_session(s, addr) {
            if k < at {
                assert(r[k] == s[k]);
            } else {
                assert(r[k] == s[k + 1]);
            }
        }
    }
    lemma_position(r, addr);
    assert forall|other: Address| other != addr implies #[trigger] client_at(r, other)
        == client_at(s, other) by {
        lemma_position(s, other);
        lemma_position(r, other);
        if has_session(s, addr) {
            let k = position(s, other);
            let q = position(r, other);
            if k < s.len() {
                let shifted = if k < at {
                    k
                } else {
                    k - 1
                };
                assert(r[shifted] == s[k]);
                assert forall|j: int| 0 <= j < shifted implies r[j].addr != other by {
                    if j < at {
                        assert(r[j] == s[j]);
                    } else {
                        assert(r[j] == s[j + 1]);
                    }
                }
                lemma_position_is(r, other, shifted);
            } else {
                if q < r.len() {
                    if q < at {
                        assert(r[q] == s[q]);
                    } else {
                        assert(r[q] == s[q + 1]);
                    }
                }
            }
        }
    }
    assert(as_map(r) =~= as_map(s).remove(addr)) by {
        assert forall|a: Address| as_map(r).dom().contains(a) <==> as_map(s).remove(
            addr,
        ).dom().contains(a) by {
            if a != addr {
                assert(client_at(r, a) == client_at(s, a));
            }
        }
        assert forall|a: Address| as_map(r).dom().contains(a) implies as_map(r)[a] == as_map(
            s,
        ).remove(addr)[a] by {
            if a != addr {
                assert(client_at(r, a) == client_at(s, a));
            }
        }
    }
}

/// With distinct keys, an address has one session if it has any.
pub proof fn lemma_count_of(s: Seq<SessionView>, addr: Address)
    requires
        keys_distinct(s),
    ensures
        count_of(s, addr) == if has_session(s, addr) {
            1nat
        } else {
            0nat
        },
    decreases s.len(),
{
    lemma_position(s, addr);
    if s.len() > 0 {
        let front = s.drop_last();
        lemma_count_of(front, addr);
        lemma_position(front, addr);
        let p = position(front, addr);
        if p < front.len() {
            assert(front[p] == s[p]);
            lemma_position_is(s, addr, p);
        } else {
            assert forall|j: int| 0 <= j < front.len() implies s[j].addr != addr by {
                assert(front[j] == s[j]);
            }
            if s.last().addr == addr {
                lemma_position_is(s, addr, s.len() - 1);
            } else {
                lemma_position_is(s, addr, s.len() as int);
            }
        }
    }
}

/// The sessions of a list, each by its view.
pub open spec fn sessions_view(sessions: Seq<Session>) -> Seq<SessionView> {
    sessions.map_values(|e: Session| e@)
}

/// The session table: at most one client per connection key, in the order in
/// which the keys were first registered.
///
/// The sessions are kept in a list rather than in a hash map, so that a
/// broadcast walks them in an order that its contract can state.
pub struct SessionTable {
    entries: Vec<Session>,
}

impl View for SessionTable {
    type V = Seq<SessionView>;

    closed spec fn view(&self) -> Seq<SessionView> {
        sessions_view(self.entries@)
    }
}

impl SessionTable {
    /// What holds of every table: no connection key occurs twice.
    #[verifier::type_invariant]
    pub open spec fn wf(&self) -> bool {
        keys_distinct(self@)
    }

    /// The empty table.
    pub fn new() -> (table: Self)
        ensures
            table@ == Seq::<SessionView>::empty(),
            table.wf(),
    {
        let table = SessionTable { entries: Vec::new() };
        assert(table@ == Seq::<SessionView>::empty());
        table
    }

    /// The number of sessions.
    pub fn len(&self) -> (n: usize)
        ensures
            n == self@.len(),
            self.wf(),
    {
        proof {
            use_type_invariant(self);
        }
        self.entries.len()
    }

    /// Whether the table has no session.
    pub fn is_empty(&self) -> (empty: bool)
        ensures
            empty == (self@.len() == 0),
    {
        self.entries.len() == 0
    }

    /// Where the session of `addr` stands; `len()` if it has none.
    fn find(&self, addr: Address) -> (at: usize)
        ensures
            at == position(self@, addr),
            at <= self@.len(),
            self@.len() == self.entries@.len(),
    {
        let mut i: usize = 0;
        while i < self.entries.len() && !(self.entries[i].addr == addr)
            invariant
                i <= self.entries.len(),
                forall|j: int| 0 <= j < i ==> self@[j].addr != addr,
            decreases self.entries.len() - i,
        {
            i += 1;
        }
        proof {
            lemma_position_is(self@, addr, i as int);
        }
        i
    }

    /// Whether `addr` has a session.
    pub fn contains(&self, addr: Address) -> (found: bool)
        ensures
            found == has_session(self@, addr),
    {
        self.find(addr) < self.entries.len()
    }

    /// The client registered under `addr`.
    pub fn get(&self, addr: Address) -> (client: Option<&ClientInfo>)
        ensures
            match client {
                Some(c) => client_at(self@, addr) == Some(c@),
                None => client_at(self@, addr) is None,
            },
    {
        let at = self.find(addr);
        if at < self.entries.len() {
            Some(&self.entries[at].client)
        } else {
            None
        }
    }

    /// The session at place `i`, in the order of `all`.
    pub fn at(&self, i: usize) -> (session: &Session)
        requires
            i < self@.len(),
        ensures
            session@ == self@[i as int],
    {
        &self.entries[i]
    }

    /// Registers `client` under `addr`, overwriting the client that `addr`
    /// had, which is returned.
    pub fn register(&mut self, addr: Address, client: ClientInfo) -> (before: Option<ClientInfo>)
        ensures
            final(self)@ == registered(old(self)@, addr, client@),
            final(self).wf(),
            match before {
                Some(c) => client_at(old(self)@, addr) == Some(c@),
                None => client_at(old(self)@, addr) is None,
            },
    {
        proof {
            use_type_invariant(&*self);
            lemma_registered(self@, addr, client@);
        }
        let at = self.find(addr);
        let session = Session { addr, client };
        let mut entries = self.take_entries();
        let before = if at < entries.len() {
            let before = entries[at].client.clone();
            entries.set(at, session);
            Some(before)
        } else {
            entries.push(session);
            None
        };
        assert(sessions_view(entries@) == registered(old(self)@, addr, client@));
        self.put_entries(entries);
        before
    }

    /// Removes the session of `addr`, if it has one, and returns its client.
    pub fn remove(&mut self, addr: Address) -> (removed: Option<ClientInfo>)
        ensures
            final(self)@ == unregistered(old(self)@, addr),
            final(self).wf(),
            match removed {
                Some(c) => client_at(old(self)@, addr) == Some(c@),
                None => client_at(old(self)@, addr) is None,
            },
    {
        proof {
            use_type_invariant(&*self);
            lemma_unregistered(self@, addr);
        }
        let at = self.find(addr);
        let mut entries = self.take_entries();
        let removed = if at < entries.len() {
            let session = entries.remove(at);
            Some(session.client)
        } else {
            None
        };
        assert(sessions_view(entries@) == unregistered(old(self)@, addr));
        self.put_entries(entries);
        removed
    }

    /// Moves the sessions out, leaving the table empty.
    fn take_entries(&mut self) -> (entries: Vec<Session>)
        ensures
            sessions_view(entries@) == old(self)@,
            final(self)@ == Seq::<SessionView>::empty(),
    {
        let mut entries: Vec<Session> = Vec::new();
        assert(sessions_view(entries@) == Seq::<SessionView>::empty());
        std::mem::swap(&mut self.entries, &mut entries);
        entries
    }

    /// Moves sessions with distinct keys into the empty table.
    fn put_entries(&mut self, entries: Vec<Session>)
        requires
            keys_distinct(sessions_view(entries@)),
        ensures
            final(self)@ == sessions_view(entries@),
            final(self).wf(),
    {
        let mut entries = entries;
        std::mem::swap(&mut self.entries, &mut entries);
    }

    /// The sessions, in the order in which their keys were first registered.
    pub fn all(&self) -> (sessions: Vec<Session>)
        ensures
            sessions_view(sessions@) == self@,
            self.wf(),
    {
        proof {
            use_type_invariant(self);
        }
        let mut sessions: Vec<Session> = Vec::new();
        let mut i: usize = 0;
        while i < self.entries.len()
            invariant
                i <= self.entries.len(),
                sessions_view(sessions@) == self@.take(i as int),
            decreases self.entries.len() - i,
        {
            let ghost before = sessions@;
            sessions.push(self.entries[i].clone());
            proof {
                assert(sessions@ == before.push(self.entries@[i as int]));
                assert(self@.take(i + 1) == self@.take(i as int).push(self@[i as int]));
                assert(sessions_view(sessions@) == sessions_view(before).push(
                    self.entries@[i as int]@,
                ));
            }
            i += 1;
        }
        assert(self@.take(i as int) == self@);
        sessions
    }
}

impl Default for SessionTable {
    fn default() -> (table: Self)
        ensures
            table@ == Seq::<SessionView>::empty(),
    {
        SessionTable::new()
    }
}

} // verus!
