//! What holds of the session table, of the relay engine and of the wire
//! format on every input.

use vstd::prelude::*;
use core::cmp::Ordering;
use crate::address::Address;
use crate::clientinfo::{
    client_of_text, client_order, client_text, colon_from, text_order, ClientInfoView,
};
use crate::listing::{lemma_first_index, lemma_first_index_is, lemma_without_first_keeps_others};
use crate::msg::{
    envelope_of_parts, envelope_of_wire, lemma_layer_tag_round_trip, lemma_type_tag_round_trip,
    parts_of_envelope, parts_of_wire, MessageError, MessageLayer, MessageType, TransMessageView,
    WirePartsView,
};
use crate::json::{
    is_json_space, json_port_value, without_leading_space, without_trailing_space,
};
use crate::text::{
    decimal_text, digit_value, lemma_decimal_text_digits, lemma_decimal_text_reads_back,
};
use vstd::utf8::{encode_utf8, is_ascii_chars, is_ascii_chars_encode_utf8};
use crate::service::{
    addressed, broadcast, chat_envelope, enter_envelope, enter_lobby_outbound, event_outcome,
    exit_envelope, message_outcome, roll_call, state_after, state_of, table_after_message,
    ConnectionState, NetworkEventView, OutboundView, RelayError, ServiceView,
};
use crate::session::{
    client_at, count_of, has_session, keys_distinct, lemma_count_of, lemma_position,
    lemma_registered, lemma_unregistered, position, registered, unregistered, SessionView,
};

verus! {

/// How many of `out` are for the client behind the connection `peer`.
pub open spec fn sent_to(out: Seq<OutboundView>, peer: Address) -> nat
    decreases out.len(),
{
    if out.len() == 0 {
        0
    } else {
        sent_to(out.drop_last(), peer) + if out.last().peer == peer {
            1nat
        } else {
            0nat
        }
    }
}

/// Counting over two lists in a row adds up.
pub proof fn lemma_sent_to_concat(a: Seq<OutboundView>, b: Seq<OutboundView>, peer: Address)
    ensures
        sent_to(a + b, peer) == sent_to(a, peer) + sent_to(b, peer),
    decreases b.len(),
{
    if b.len() == 0 {
        assert(a + b == a);
    } else {
        assert((a + b).drop_last() == a + b.drop_last());
        assert((a + b).last() == b.last());
        lemma_sent_to_concat(a, b.drop_last(), peer);
    }
}

/// A broadcast sends each session one envelope.
pub proof fn lemma_sent_to_broadcast(table: Seq<SessionView>, envelope: TransMessageView, peer: Address)
    ensures
        sent_to(broadcast(table, envelope), peer) == count_of(table, peer),
    decreases table.len(),
{
    if table.len() > 0 {
        assert(broadcast(table, envelope).drop_last() == broadcast(table.drop_last(), envelope));
        lemma_sent_to_broadcast(table.drop_last(), envelope, peer);
    }
}

/// A roll call sends the newcomer one envelope per session, and nobody else any.
pub proof fn lemma_sent_to_roll_call(
    table: Seq<SessionView>,
    newcomer: Address,
    client: ClientInfoView,
    peer: Address,
)
    ensures
        sent_to(roll_call(table, newcomer, client), peer) == if peer == newcomer {
            table.len()
        } else {
            0
        },
    decreases table.len(),
{
    if table.len() > 0 {
        assert(roll_call(table, newcomer, client).drop_last() == roll_call(
            table.drop_last(),
            newcomer,
            client,
        ));
        lemma_sent_to_roll_call(table.drop_last(), newcomer, client, peer);
    }
}

/// Registering the same client under the same address twice leaves the table
/// as registering it once does, with exactly one session for that address.
pub proof fn law_registration_is_idempotent(
    table: Seq<SessionView>,
    addr: Address,
    client: ClientInfoView,
)
    requires
        keys_distinct(table),
    ensures
        registered(registered(table, addr, client), addr, client) == registered(table, addr, client),
        count_of(registered(registered(table, addr, client), addr, client), addr) == 1,
        client_at(registered(registered(table, addr, client), addr, client), addr) == Some(client),
{
    let once = registered(table, addr, client);
    lemma_registered(table, addr, client);
    lemma_position(once, addr);
    assert(registered(once, addr, client) == once);
    lemma_count_of(once, addr);
}

/// A chat from a registered client goes out once to every session, the
/// sender's included, with the sender and the text as they came in; the table
/// stays as it is.
pub proof fn law_chat_reaches_every_session(
    table: Seq<SessionView>,
    addr: Address,
    from: ClientInfoView,
    msg: Seq<char>,
)
    requires
        keys_distinct(table),
        has_session(table, addr),
    ensures
        message_outcome(table, addr, chat_envelope(from, msg)) == Ok::<
            Seq<OutboundView>,
            RelayError,
        >(broadcast(table, chat_envelope(from, msg))),
        table_after_message(table, addr, chat_envelope(from, msg)) == table,
        broadcast(table, chat_envelope(from, msg)).len() == table.len(),
        forall|i: int|
            0 <= i < table.len() ==> {
                let sent = #[trigger] broadcast(table, chat_envelope(from, msg))[i];
                &&& sent.peer == table[i].addr
                &&& sent.envelope.layer == MessageLayer::Chat
                &&& sent.envelope.message.msg_type == MessageType::Chat
                &&& sent.envelope.message.from == from
                &&& sent.envelope.message.msg == msg
            },
        forall|peer: Address|
            has_session(table, peer) ==> #[trigger] sent_to(
                broadcast(table, chat_envelope(from, msg)),
                peer,
            ) == 1,
{
    assert forall|peer: Address| has_session(table, peer) implies #[trigger] sent_to(
        broadcast(table, chat_envelope(from, msg)),
        peer,
    ) == 1 by {
        lemma_sent_to_broadcast(table, chat_envelope(from, msg), peer);
        lemma_count_of(table, peer);
    }
}

/// When a client enters a lobby of `table.len()` sessions, it is sent one
/// announcement for each of them and one for itself, every other session is
/// sent exactly one, and every envelope sent is an announcement; those for
/// the other sessions announce the newcomer.
pub proof fn law_newcomer_sync_count(table: Seq<SessionView>, addr: Address, client: ClientInfoView)
    requires
        keys_distinct(table),
    ensures
        message_outcome(table, addr, enter_envelope(client)) == Ok::<Seq<OutboundView>, RelayError>(
            enter_lobby_outbound(table, addr, client),
        ),
        sent_to(enter_lobby_outbound(table, addr, client), addr) == table.len() + 1,
        forall|peer: Address|
            peer != addr && has_session(table, peer) ==> #[trigger] sent_to(
                enter_lobby_outbound(table, addr, client),
                peer,
            ) == 1,
        forall|peer: Address|
            peer != addr && !has_session(table, peer) ==> #[trigger] sent_to(
                enter_lobby_outbound(table, addr, client),
                peer,
            ) == 0,
        forall|i: int|
            0 <= i < enter_lobby_outbound(table, addr, client).len() ==> {
                let sent = #[trigger] enter_lobby_outbound(table, addr, client)[i];
                &&& sent.envelope.layer == MessageLayer::Connection
                &&& sent.envelope.message.msg_type == MessageType::EnterLobby
                &&& sent.peer != addr ==> sent.envelope == enter_envelope(client)
            },
        table_after_message(table, addr, enter_envelope(client)) == registered(table, addr, client),
{
    let others = broadcast(unregistered(table, addr), enter_envelope(client));
    let roll = roll_call(table, addr, client);
    let ack = seq![addressed(addr, client, enter_envelope(client))];
    let out = enter_lobby_outbound(table, addr, client);
    lemma_unregistered(table, addr);
    assert forall|peer: Address| true implies #[trigger] sent_to(out, peer) == (if peer == addr {
        table.len() + 1
    } else if has_session(table, peer) {
        1
    } else {
        0
    }) by {
        lemma_sent_to_concat(others + roll, ack, peer);
        lemma_sent_to_concat(others, roll, peer);
        lemma_sent_to_broadcast(unregistered(table, addr), enter_envelope(client), peer);
        lemma_sent_to_roll_call(table, addr, client, peer);
        lemma_count_of(unregistered(table, addr), peer);
        assert(ack.drop_last() == Seq::<OutboundView>::empty());
        assert(sent_to(ack.drop_last(), peer) == 0);
        assert(sent_to(ack, peer) == if peer == addr {
            1nat
        } else {
            0nat
        });
        if peer != addr {
            assert(client_at(unregistered(table, addr), peer) == client_at(table, peer));
        }
    }
    assert(sent_to(out, addr) == table.len() + 1);
}

/// After a registered address disconnects it has no session, every remaining
/// session is told once that its client has left, and nothing that is
/// broadcast afterwards, such as a chat from a remaining session, is for it.
pub proof fn law_disconnect_cleans_up(
    state: ServiceView,
    addr: Address,
    sender: Address,
    from: ClientInfoView,
    msg: Seq<char>,
)
    requires
        keys_distinct(state.players),
        has_session(state.players, addr),
        has_session(state_after(state, NetworkEventView::Disconnect(addr)).players, sender),
    ensures
        ({
            let after = state_after(state, NetworkEventView::Disconnect(addr));
            let departed = state.players[position(state.players, addr)].client;
            &&& !has_session(after.players, addr)
            &&& forall|i: int| 0 <= i < after.players.len() ==> after.players[i].addr != addr
            &&& after.players.len() == state.players.len() - 1
            &&& keys_distinct(after.players)
            &&& event_outcome(state, NetworkEventView::Disconnect(addr)) == Ok::<
                Seq<OutboundView>,
                RelayError,
            >(broadcast(after.players, exit_envelope(departed)))
            &&& sent_to(broadcast(after.players, exit_envelope(departed)), addr) == 0
            &&& message_outcome(after.players, sender, chat_envelope(from, msg)) == Ok::<
                Seq<OutboundView>,
                RelayError,
            >(broadcast(after.players, chat_envelope(from, msg)))
            &&& sent_to(broadcast(after.players, chat_envelope(from, msg)), addr) == 0
            &&& forall|i: int|
                0 <= i < after.players.len() ==> (#[trigger] broadcast(
                    after.players,
                    chat_envelope(from, msg),
                )[i]).peer != addr
        }),
{
    let after = state_after(state, NetworkEventView::Disconnect(addr));
    let departed = state.players[position(state.players, addr)].client;
    lemma_unregistered(state.players, addr);
    lemma_count_of(after.players, addr);
    lemma_sent_to_broadcast(after.players, exit_envelope(departed), addr);
    lemma_sent_to_broadcast(after.players, chat_envelope(from, msg), addr);
}

/// Every session belongs to an open connection.
pub open spec fn sessions_within_roster(state: ServiceView) -> bool {
    forall|addr: Address| has_session(state.players, addr) ==> state.connection.contains(addr)
}

/// As long as messages come only over open connections, every session
/// belongs to an open connection, and no connection key has two sessions.
pub proof fn law_sessions_stay_within_roster(state: ServiceView, event: NetworkEventView)
    requires
        keys_distinct(state.players),
        sessions_within_roster(state),
        event matches NetworkEventView::Message(addr, _) ==> state.connection.contains(addr),
    ensures
        keys_distinct(state_after(state, event).players),
        sessions_within_roster(state_after(state, event)),
{
    let after = state_after(state, event);
    match event {
        NetworkEventView::Message(addr, payload) => {
            match envelope_of_wire(payload) {
                Ok(t) => {
                    lemma_registered(state.players, addr, t.message.from);
                    lemma_unregistered(state.players, addr);
                    assert forall|a: Address| has_session(after.players, a) implies state.connection.contains(
                        a,
                    ) by {
                        if a != addr {
                            assert(client_at(registered(state.players, addr, t.message.from), a)
                                == client_at(state.players, a));
                            assert(client_at(unregistered(state.players, addr), a) == client_at(
                                state.players,
                                a,
                            ));
                        }
                    }
                },
                Err(_) => {},
            }
        },
        NetworkEventView::Connect(addr) => {
            assert forall|a: Address| has_session(after.players, a) implies after.connection.contains(
                a,
            ) by {
                let k = choose|k: int| 0 <= k < state.connection.len() && state.connection[k] == a;
                assert(after.connection[k] == a);
            }
        },
        NetworkEventView::Disconnect(addr) => {
            lemma_unregistered(state.players, addr);
            assert forall|a: Address| has_session(after.players, a) implies after.connection.contains(
                a,
            ) by {
                assert(a != addr);
                assert(client_at(after.players, a) == client_at(state.players, a));
                lemma_without_first_keeps_others(state.connection, addr, a);
            }
        },
        NetworkEventView::RecvError(_) => {},
    }
}

/// A connection is accepted when it opens, active once its client has
/// entered the lobby, and closed, with its session gone, when it closes.
pub proof fn law_connection_life_cycle(state: ServiceView, addr: Address, client: ClientInfoView)
    requires
        keys_distinct(state.players),
        sessions_within_roster(state),
        !state.connection.contains(addr),
    ensures
        ({
            let accepted = state_after(state, NetworkEventView::Connect(addr));
            let active = ServiceView {
                connection: accepted.connection,
                players: table_after_message(accepted.players, addr, enter_envelope(client)),
            };
            let closed = state_after(active, NetworkEventView::Disconnect(addr));
            &&& state_of(state, addr) == ConnectionState::Closed
            &&& state_of(accepted, addr) == ConnectionState::Accepted
            &&& state_of(active, addr) == ConnectionState::Active
            &&& state_of(closed, addr) == ConnectionState::Closed
            &&& !has_session(closed.players, addr)
            &&& closed.connection == state.connection
            &&& closed.players == state.players
        }),
{
    let accepted = state_after(state, NetworkEventView::Connect(addr));
    let active = ServiceView {
        connection: accepted.connection,
        players: table_after_message(accepted.players, addr, enter_envelope(client)),
    };
    let closed = state_after(active, NetworkEventView::Disconnect(addr));
    assert(accepted.connection[state.connection.len() as int] == addr);
    lemma_registered(state.players, addr, client);
    lemma_position(state.players, addr);
    lemma_position(active.players, addr);
    assert(!has_session(state.players, addr));
    assert(active.players == state.players.push(SessionView { addr, client }));
    lemma_unregistered(active.players, addr);
    assert(active.players[state.players.len() as int].addr == addr);
    crate::session::lemma_position_is(active.players, addr, state.players.len() as int);
    assert(closed.players == state.players);
    lemma_first_index(state.connection, addr);
    lemma_first_index_is(accepted.connection, addr, state.connection.len() as int);
    assert(closed.connection == state.connection);
    assert(!closed.connection.contains(addr));
}

/// The JSON library reads a port back from the bytes of its decimal text.
pub proof fn law_port_reads_back_from_json(port: u16)
    ensures
        json_port_value(encode_utf8(decimal_text(port as nat))) == Some(port),
{
    let text = decimal_text(port as nat);
    let bytes = encode_utf8(text);
    lemma_decimal_text_digits(port as nat);
    lemma_decimal_text_reads_back(port as nat);
    assert(is_ascii_chars(text)) by {
        assert forall|i: int| 0 <= i < text.len() implies '\0' <= #[trigger] text[i] <= '\u{7f}' by {
            assert(digit_value(text[i]) is Some);
        }
    }
    is_ascii_chars_encode_utf8(text);
    assert forall|i: int| 0 <= i < bytes.len() implies !is_json_space(#[trigger] bytes[i])
        && bytes[i] as char == text[i] by {
        assert(text[i] as u8 == bytes[i]);
        assert(digit_value(text[i]) is Some);
    }
    assert(!is_json_space(bytes[0]));
    assert(!is_json_space(bytes.last()));
    assert(without_leading_space(bytes) == bytes);
    assert(without_trailing_space(bytes) == bytes);
    assert(bytes.map_values(|b: u8| b as char) == text);
}

/// An envelope reads back from the parts it is written from, whatever its
/// layer, its message type, its sender and its text.
pub proof fn law_envelope_round_trip_through_parts(t: TransMessageView)
    ensures
        envelope_of_parts(parts_of_envelope(t)) == Ok::<TransMessageView, MessageError>(t),
{
    lemma_layer_tag_round_trip(t.layer);
    lemma_type_tag_round_trip(t.message.msg_type);
}

/// Where the JSON library reads from some bytes the parts that an envelope
/// is written from, the bytes read as that envelope.
pub proof fn law_envelope_reads_back(t: TransMessageView, bytes: Seq<u8>)
    requires
        parts_of_wire(bytes) == Ok::<WirePartsView, MessageError>(parts_of_envelope(t)),
    ensures
        envelope_of_wire(bytes) == Ok::<TransMessageView, MessageError>(t),
{
    law_envelope_round_trip_through_parts(t);
}

/// A client whose name holds no `:` reads back from its own text.
pub proof fn law_client_reads_back_from_its_text(c: ClientInfoView)
    requires
        !c.name.contains(':'),
    ensures
        client_text(c).contains(':'),
        client_of_text(client_text(c)) == c,
{
    let text = client_text(c);
    let digits = decimal_text(c.port as nat);
    let n = c.name.len() as int;
    crate::text::lemma_decimal_text_reads_back(c.port as nat);
    crate::text::lemma_port_text_round_trip(c.port);
    assert(text[n] == ':');
    crate::clientinfo::lemma_colon_from_bounds(text, 0);
    let first = colon_from(text, 0);
    assert(first == n) by {
        if first < n {
            assert(text[first] == c.name[first]);
            assert(c.name.contains(c.name[first]));
        }
    }
    crate::clientinfo::lemma_colon_from_bounds(text, n + 1);
    let second = colon_from(text, n + 1);
    crate::clientinfo::lemma_decimal_text_has_no_colon(c.port as nat);
    assert(second == text.len()) by {
        if second < text.len() {
            assert(text[second] == digits[second - n - 1]);
            assert(digits.contains(digits[second - n - 1]));
        }
    }
    assert(text.subrange(0, first) == c.name);
    assert(text.subrange(first + 1, second) == digits);
}

/// Two texts are equal in order exactly when they are the same text.
pub proof fn lemma_text_order_equal(a: Seq<char>, b: Seq<char>)
    ensures
        text_order(a, b) == Ordering::Equal <==> a == b,
    decreases a.len(),
{
    if a.len() > 0 && b.len() > 0 {
        lemma_text_order_equal(a.drop_first(), b.drop_first());
        if a[0] == b[0] && a.drop_first() == b.drop_first() {
            assert(a =~= seq![a[0]] + a.drop_first());
            assert(b =~= seq![b[0]] + b.drop_first());
        }
    } else if a.len() == 0 && b.len() == 0 {
        assert(a =~= b);
    }
}

/// The order of clients agrees with their equality: two clients are equal in
/// order exactly when they have the same name and the same port.
pub proof fn law_client_order_agrees_with_equality(a: ClientInfoView, b: ClientInfoView)
    ensures
        client_order(a, b) == Ordering::Equal <==> a == b,
{
    lemma_text_order_equal(a.name, b.name);
}

/// Turning two texts round turns their order round.
pub proof fn lemma_text_order_turns(a: Seq<char>, b: Seq<char>)
    ensures
        text_order(a, b) == Ordering::Less <==> text_order(b, a) == Ordering::Greater,
        text_order(a, b) == Ordering::Equal <==> text_order(b, a) == Ordering::Equal,
    decreases a.len(),
{
    if a.len() > 0 && b.len() > 0 {
        lemma_text_order_turns(a.drop_first(), b.drop_first());
    }
}

/// Turning two clients round turns their order round.
pub proof fn law_client_order_turns(a: ClientInfoView, b: ClientInfoView)
    ensures
        client_order(a, b) == Ordering::Less <==> client_order(b, a) == Ordering::Greater,
        client_order(a, b) == Ordering::Equal <==> client_order(b, a) == Ordering::Equal,
{
    lemma_text_order_turns(a.name, b.name);
}

} // verus!
