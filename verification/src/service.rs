//! The relay engine: which envelopes go to whom when a client enters the
//! lobby, chats, or leaves.
//!
//! The engine performs no I/O. It is handed transport events and answers each
//! with the envelopes to send; whoever owns the sockets delivers them.

use vstd::prelude::*;
use vstd::string::StringExecFns;
use crate::address::{spec_udp_target, udp_target, Address};
use crate::clientinfo::{ClientInfo, ClientInfoView};
use crate::listing::{first_index, lemma_first_index, lemma_first_index_is, without_first};
use crate::msg::{
    envelope_of_wire, MessageError, MessageLayer, MessageType, MessageView, TransMessage,
    TransMessageView,
};
use crate::session::{
    client_at, has_session, keys_distinct, position, registered, unregistered, SessionTable,
    SessionView,
};

verus! {

/// One envelope to deliver.
#[derive(Debug)]
pub struct Outbound {
    /// The connection key of the client the envelope is for.
    pub peer: Address,
    /// The datagram address to send it to: the peer's host, with the port the
    /// targeted client announced.
    pub target: Address,
    pub envelope: TransMessage,
}

/// An [`Outbound`] in contracts.
pub struct OutboundView {
    pub peer: Address,
    pub target: Address,
    pub envelope: TransMessageView,
}

impl View for Outbound {
    type V = OutboundView;

    open spec fn view(&self) -> OutboundView {
        OutboundView { peer: self.peer, target: self.target, envelope: self.envelope@ }
    }
}

/// The envelopes of a list, each by its view.
pub open spec fn outbound_view(out: Seq<Outbound>) -> Seq<OutboundView> {
    out.map_values(|o: Outbound| o@)
}

/// The envelope that announces that `client` is in the lobby.
pub open spec fn enter_envelope(client: ClientInfoView) -> TransMessageView {
    TransMessageView {
        layer: MessageLayer::Connection,
        message: MessageView { from: client, msg_type: MessageType::EnterLobby, msg: "enter lobby"@ },
    }
}

/// The envelope that announces that `client` has left.
pub open spec fn exit_envelope(client: ClientInfoView) -> TransMessageView {
    TransMessageView {
        layer: MessageLayer::Connection,
        message: MessageView { from: client, msg_type: MessageType::ExitLobby, msg: "exit game"@ },
    }
}

/// The envelope that forwards a chat text of `from`.
pub open spec fn chat_envelope(from: ClientInfoView, msg: Seq<char>) -> TransMessageView {
    TransMessageView {
        layer: MessageLayer::Chat,
        message: MessageView { from, msg_type: MessageType::Chat, msg },
    }
}

/// `envelope`, addressed to the client `to` behind the connection `peer`.
pub open spec fn addressed(peer: Address, to: ClientInfoView, envelope: TransMessageView) -> OutboundView {
    OutboundView { peer, target: spec_udp_target(peer, to.port), envelope }
}

/// `envelope` once for every session of `table`, in the table's order.
pub open spec fn broadcast(table: Seq<SessionView>, envelope: TransMessageView) -> Seq<OutboundView> {
    table.map_values(|s: SessionView| addressed(s.addr, s.client, envelope))
}

/// What the newcomer `client` behind `peer` is sent to learn who is there:
/// one announcement for every session of `table`, in the table's order.
pub open spec fn roll_call(table: Seq<SessionView>, peer: Address, client: ClientInfoView) -> Seq<
    OutboundView,
> {
    table.map_values(|s: SessionView| addressed(peer, client, enter_envelope(s.client)))
}

/// Everything that is sent when `client` enters the lobby behind `peer`: the
/// announcement to every other session, the roll call of the sessions that
/// were there before, and the acknowledgement to the newcomer itself.
pub open spec fn enter_lobby_outbound(table: Seq<SessionView>, peer: Address, client: ClientInfoView) -> Seq<
    OutboundView,
> {
    broadcast(unregistered(table, peer), enter_envelope(client)) + roll_call(table, peer, client)
        + seq![addressed(peer, client, enter_envelope(client))]
}

/// Prepares one delivery: `trans_msg` for the client `to` behind the
/// connection `addr`. The datagram goes to `addr`'s host, at the port that
/// `to` announced.
pub fn send_message(addr: &Address, to: &ClientInfo, trans_msg: &TransMessage) -> (out: Outbound)
    ensures
        out@ == addressed(*addr, to@, trans_msg@),
{
    Outbound { peer: *addr, target: udp_target(*addr, to.port), envelope: trans_msg.clone() }
}

impl Outbound {
    /// The text to put in the datagram. This always succeeds.
    pub fn payload(&self) -> (res: Result<String, MessageError>)
        ensures
            res is Ok,
            res matches Ok(text) ==> text@ == crate::msg::wire_text(self.envelope@),
    {
        self.envelope.serialize()
    }
}

fn enter_lobby_message(client: &ClientInfo) -> (t: TransMessage)
    ensures
        t@ == enter_envelope(client@),
{
    TransMessage::new(
        MessageLayer::Connection,
        client.clone(),
        MessageType::EnterLobby,
        String::from_str("enter lobby"),
    )
}

fn exit_lobby_message(client: &ClientInfo) -> (t: TransMessage)
    ensures
        t@ == exit_envelope(client@),
{
    TransMessage::new(
        MessageLayer::Connection,
        client.clone(),
        MessageType::ExitLobby,
        String::from_str("exit game"),
    )
}

/// Prepares `envelope` for every session of `table`.
pub fn broadcast_to_all(table: &SessionTable, envelope: &TransMessage) -> (out: Vec<Outbound>)
    ensures
        outbound_view(out@) == broadcast(table@, envelope@),
{
    let mut out: Vec<Outbound> = Vec::new();
    let n = table.len();
    let mut i: usize = 0;
    while i < n
        invariant
            i <= n,
            n == table@.len(),
            outbound_view(out@) == broadcast(table@.take(i as int), envelope@),
        decreases n - i,
    {
        let session = table.at(i);
        let ghost before = out@;
        out.push(send_message(&session.addr, &session.client, envelope));
        proof {
            assert(table@.take(i + 1) == table@.take(i as int).push(table@[i as int]));
            assert(outbound_view(out@) == outbound_view(before).push(
                addressed(session.addr, session.client@, envelope@),
            ));
        }
        i += 1;
    }
    assert(table@.take(i as int) == table@);
    out
}

/// The server's lobby state: the open connections and the session table.
pub struct ServiceSystem {
    connection: Vec<Address>,
    players: SessionTable,
}

/// A [`ServiceSystem`] in contracts.
pub struct ServiceView {
    /// The connection roster: the addresses with an open connection, in the
    /// order in which they connected.
    pub connection: Seq<Address>,
    /// The session table.
    pub players: Seq<SessionView>,
}

impl View for ServiceSystem {
    type V = ServiceView;

    closed spec fn view(&self) -> ServiceView {
        ServiceView { connection: self.connection@, players: self.players@ }
    }
}

impl ServiceSystem {
    /// A server with no connection and no session.
    pub fn new() -> (system: Self)
        ensures
            system@.connection == Seq::<Address>::empty(),
            system@.players == Seq::<SessionView>::empty(),
    {
        Self { connection: Vec::new(), players: SessionTable::new() }
    }

    /// The session table.
    pub fn players(&self) -> (table: &SessionTable)
        ensures
            table@ == self@.players,
            keys_distinct(self@.players),
    {
        proof {
            use_type_invariant(&self.players);
        }
        &self.players
    }

    /// The connection roster.
    pub fn connection(&self) -> (roster: &Vec<Address>)
        ensures
            roster@ == self@.connection,
    {
        &self.connection
    }

    /// The number of open connections.
    pub fn online_num(&self) -> (n: usize)
        ensures
            n == self@.connection.len(),
    {
        self.connection.len()
    }

    /// Registers `c` under `addr`, overwriting what `addr` had.
    pub fn add_players(&mut self, addr: Address, c: ClientInfo)
        ensures
            final(self)@.players == registered(old(self)@.players, addr, c@),
            final(self)@.connection == old(self)@.connection,
    {
        self.players.register(addr, c);
    }

    /// Tells the newcomer `from` behind `new_addr` who is in the lobby: one
    /// announcement for every session.
    pub fn sync_remaining_players(&self, new_addr: &Address, from: &ClientInfo) -> (out: Vec<
        Outbound,
    >)
        ensures
            outbound_view(out@) == roll_call(self@.players, *new_addr, from@),
    {
        let mut out: Vec<Outbound> = Vec::new();
        let n = self.players.len();
        let mut i: usize = 0;
        while i < n
            invariant
                i <= n,
                n == self.players@.len(),
                outbound_view(out@) == roll_call(self.players@.take(i as int), *new_addr, from@),
            decreases n - i,
        {
            let session = self.players.at(i);
            let msg = enter_lobby_message(&session.client);
            let ghost before = out@;
            out.push(send_message(new_addr, from, &msg));
            proof {
                assert(self.players@.take(i + 1) == self.players@.take(i as int).push(
                    self.players@[i as int],
                ));
                assert(outbound_view(out@) == outbound_view(before).push(
                    addressed(*new_addr, from@, enter_envelope(session.client@)),
                ));
            }
            i += 1;
        }
        assert(self.players@.take(i as int) == self.players@);
        out
    }

    /// Acknowledges the newcomer `from` behind `new_addr` with its own
    /// announcement.
    pub fn load_player_himself(&self, new_addr: &Address, from: &ClientInfo) -> (out: Outbound)
        ensures
            out@ == addressed(*new_addr, from@, enter_envelope(from@)),
    {
        let msg = enter_lobby_message(from);
        send_message(new_addr, from, &msg)
    }

    /// Tells every session but the one of `new_addr` that `from` has entered.
    pub fn broadcast_to_others(&self, new_addr: &Address, from: &ClientInfo) -> (out: Vec<Outbound>)
        ensures
            outbound_view(out@) == broadcast(
                unregistered(self@.players, *new_addr),
                enter_envelope(from@),
            ),
    {
        let msg = enter_lobby_message(from);
        broadcast_to_others_of(&self.players, new_addr, &msg)
    }
}

/// Prepares `envelope` for every session of `table` but the one of `skip`.
pub fn broadcast_to_others_of(table: &SessionTable, skip: &Address, envelope: &TransMessage) -> (out:
    Vec<Outbound>)
    ensures
        outbound_view(out@) == broadcast(unregistered(table@, *skip), envelope@),
{
    let mut out: Vec<Outbound> = Vec::new();
    let n = table.len();
    let ghost at = position(table@, *skip);
    proof {
        crate::session::lemma_position(table@, *skip);
    }
    let mut i: usize = 0;
    while i < n
        invariant
            i <= n,
            n == table@.len(),
            keys_distinct(table@),
            at == position(table@, *skip),
            0 <= at <= n,
            at < n ==> table@[at].addr == *skip,
            forall|k: int| 0 <= k < at ==> table@[k].addr != *skip,
            outbound_view(out@) == broadcast(
                if i <= at {
                    table@.take(i as int)
                } else {
                    table@.take(i as int).remove(at)
                },
                envelope@,
            ),
        decreases n - i,
    {
        let session = table.at(i);
        let ghost before = out@;
        if !(session.addr == *skip) {
            out.push(send_message(&session.addr, &session.client, envelope));
            proof {
                assert(i as int != at);
                assert(outbound_view(out@) == outbound_view(before).push(
                    addressed(session.addr, session.client@, envelope@),
                ));
                if i < at {
                    assert(table@.take(i + 1) == table@.take(i as int).push(table@[i as int]));
                } else {
                    assert(table@.take(i + 1).remove(at) == table@.take(i as int).remove(at).push(
                        table@[i as int],
                    ));
                }
            }
        } else {
            proof {
                assert(i as int == at);
                assert(table@.take(i + 1).remove(at) == table@.take(i as int));
            }
        }
        i += 1;
    }
    proof {
        assert(table@.take(i as int) == table@);
    }
    out
}

/// What the transport reports to the relay engine.
#[derive(Debug)]
pub enum NetworkEvent {
    /// A payload arrived over the connection of this address.
    Message(Address, Vec<u8>),
    /// A connection from this address was accepted.
    Connect(Address),
    /// The connection of this address was closed.
    Disconnect(Address),
    /// Receiving failed; the text describes the failure.
    RecvError(String),
}

/// A [`NetworkEvent`] in contracts.
pub enum NetworkEventView {
    Message(Address, Seq<u8>),
    Connect(Address),
    Disconnect(Address),
    RecvError(Seq<char>),
}

impl View for NetworkEvent {
    type V = NetworkEventView;

    open spec fn view(&self) -> NetworkEventView {
        match self {
            NetworkEvent::Message(addr, payload) => NetworkEventView::Message(*addr, payload@),
            NetworkEvent::Connect(addr) => NetworkEventView::Connect(*addr),
            NetworkEvent::Disconnect(addr) => NetworkEventView::Disconnect(*addr),
            NetworkEvent::RecvError(text) => NetworkEventView::RecvError(text@),
        }
    }
}

/// Why a message was dropped without any envelope being sent.
#[derive(Debug, Clone, Copy, PartialEq, Eq, Structural)]
pub enum RelayError {
    /// The payload is no envelope.
    Malformed(MessageError),
    /// The envelope is of a layer that the server does not serve.
    Unsupported(MessageLayer),
    /// The message type does not belong to the envelope's layer.
    Inconsistent,
    /// The sender chats or leaves without having entered the lobby.
    Unregistered,
}

/// What is sent when the envelope `t` arrives from `addr`, or why it is dropped.
///
/// * `Connection`/`EnterLobby`: see [`enter_lobby_outbound`].
/// * `Connection`/`ExitLobby` from a registered address: the exit of its
///   client, to every remaining session.
/// * `Chat`/`Chat` from a registered address: the chat, with the same sender
///   and text, to every session.
/// * `System`, `Lobby`, `Game`: `Unsupported`.
/// * another message type on `Connection` or `Chat`: `Inconsistent`.
/// * leaving or chatting from an address without a session: `Unregistered`.
pub open spec fn message_outcome(table: Seq<SessionView>, addr: Address, t: TransMessageView) -> Result<
    Seq<OutboundView>,
    RelayError,
> {
    match t.layer {
        MessageLayer::Connection => match t.message.msg_type {
            MessageType::EnterLobby => Ok(enter_lobby_outbound(table, addr, t.message.from)),
            MessageType::ExitLobby => match client_at(table, addr) {
                Some(client) => Ok(broadcast(unregistered(table, addr), exit_envelope(client))),
                None => Err(RelayError::Unregistered),
            },
            _ => Err(RelayError::Inconsistent),
        },
        MessageLayer::Chat => if t.message.msg_type != MessageType::Chat {
            Err(RelayError::Inconsistent)
        } else if !has_session(table, addr) {
            Err(RelayError::Unregistered)
        } else {
            Ok(broadcast(table, chat_envelope(t.message.from, t.message.msg)))
        },
        layer => Err(RelayError::Unsupported(layer)),
    }
}

/// The session table after the envelope `t` arrived from `addr`.
pub open spec fn table_after_message(table: Seq<SessionView>, addr: Address, t: TransMessageView) -> Seq<
    SessionView,
> {
    match (t.layer, t.message.msg_type) {
        (MessageLayer::Connection, MessageType::EnterLobby) => registered(
            table,
            addr,
            t.message.from,
        ),
        (MessageLayer::Connection, MessageType::ExitLobby) => unregistered(table, addr),
        _ => table,
    }
}

/// What is sent in answer to `event`, or why its message is dropped.
pub open spec fn event_outcome(state: ServiceView, event: NetworkEventView) -> Result<
    Seq<OutboundView>,
    RelayError,
> {
    match event {
        NetworkEventView::Message(addr, payload) => match envelope_of_wire(payload) {
            Ok(t) => message_outcome(state.players, addr, t),
            Err(e) => Err(RelayError::Malformed(e)),
        },
        NetworkEventView::Connect(_) => Ok(Seq::empty()),
        NetworkEventView::Disconnect(addr) => match client_at(state.players, addr) {
            Some(client) => Ok(broadcast(unregistered(state.players, addr), exit_envelope(client))),
            None => Ok(Seq::empty()),
        },
        NetworkEventView::RecvError(_) => Ok(Seq::empty()),
    }
}

/// The state after `event`.
pub open spec fn state_after(state: ServiceView, event: NetworkEventView) -> ServiceView {
    match event {
        NetworkEventView::Message(addr, payload) => match envelope_of_wire(payload) {
            Ok(t) => ServiceView {
                connection: state.connection,
                players: table_after_message(state.players, addr, t),
            },
            Err(_) => state,
        },
        NetworkEventView::Connect(addr) => ServiceView {
            connection: state.connection.push(addr),
            players: state.players,
        },
        NetworkEventView::Disconnect(addr) => ServiceView {
            connection: without_first(state.connection, addr),
            players: unregistered(state.players, addr),
        },
        NetworkEventView::RecvError(_) => state,
    }
}

/// The outcome of a step in contracts.
pub open spec fn outcome_view(outcome: Result<Vec<Outbound>, RelayError>) -> Result<
    Seq<OutboundView>,
    RelayError,
> {
    match outcome {
        Ok(out) => Ok(outbound_view(out@)),
        Err(e) => Err(e),
    }
}

impl ServiceSystem {
    /// Handles an envelope that arrived from `addr`.
    pub fn handle_message(&mut self, addr: Address, envelope: &TransMessage) -> (outcome: Result<
        Vec<Outbound>,
        RelayError,
    >)
        ensures
            outcome_view(outcome) == message_outcome(old(self)@.players, addr, envelope@),
            final(self)@.players == table_after_message(old(self)@.players, addr, envelope@),
            final(self)@.connection == old(self)@.connection,
    {
        let m = envelope.message();
        match envelope.layer() {
            MessageLayer::Connection => match m.msg_type {
                MessageType::EnterLobby => {
                    let mut out = self.broadcast_to_others(&addr, &m.from);
                    let mut roll = self.sync_remaining_players(&addr, &m.from);
                    self.add_players(addr, m.from.clone());
                    let ack = self.load_player_himself(&addr, &m.from);
                    let ghost first = out@;
                    let ghost second = roll@;
                    out.append(&mut roll);
                    out.push(ack);
                    proof {
                        assert(outbound_view(out@) == outbound_view(first) + outbound_view(second)
                            + seq![ack@]);
                    }
                    Ok(out)
                },
                MessageType::ExitLobby => {
                    match self.players.remove(addr) {
                        Some(client) => {
                            let msg = exit_lobby_message(&client);
                            Ok(broadcast_to_all(&self.players, &msg))
                        },
                        None => {
                            proof {
                                use_type_invariant(&self.players);
                            }
                            Err(RelayError::Unregistered)
                        },
                    }
                },
                _ => Err(RelayError::Inconsistent),
            },
            MessageLayer::Chat => {
                if !(m.msg_type == MessageType::Chat) {
                    Err(RelayError::Inconsistent)
                } else if !self.players.contains(addr) {
                    Err(RelayError::Unregistered)
                } else {
                    let msg = TransMessage::new(
                        MessageLayer::Chat,
                        m.from.clone(),
                        MessageType::Chat,
                        m.msg.clone(),
                    );
                    Ok(broadcast_to_all(&self.players, &msg))
                }
            },
            MessageLayer::System => Err(RelayError::Unsupported(MessageLayer::System)),
            MessageLayer::Lobby => Err(RelayError::Unsupported(MessageLayer::Lobby)),
            MessageLayer::Game => Err(RelayError::Unsupported(MessageLayer::Game)),
        }
    }

    /// Where `addr` first stands in the roster; the roster's length if it
    /// does not occur.
    fn find_connection(&self, addr: Address) -> (at: usize)
        ensures
            at == first_index(self@.connection, addr),
            at <= self@.connection.len(),
            self@.connection.len() == self.connection@.len(),
            at < self@.connection.len() <==> self@.connection.contains(addr),
    {
        let mut i: usize = 0;
        while i < self.connection.len() && !(self.connection[i] == addr)
            invariant
                i <= self.connection.len(),
                forall|j: int| 0 <= j < i ==> self.connection@[j] != addr,
            decreases self.connection.len() - i,
        {
            i += 1;
        }
        proof {
            lemma_first_index_is(self.connection@, addr, i as int);
            lemma_first_index(self.connection@, addr);
        }
        i
    }

    /// Notes a new connection.
    pub fn connect(&mut self, addr: Address)
        ensures
            final(self)@.connection == old(self)@.connection.push(addr),
            final(self)@.players == old(self)@.players,
    {
        self.connection.push(addr);
    }

    /// Notes that the connection of `addr` was closed: the roster and the
    /// session table forget it, and every remaining session is told that its
    /// client has left.
    pub fn disconnect(&mut self, addr: Address) -> (out: Vec<Outbound>)
        ensures
            final(self)@.connection == without_first(old(self)@.connection, addr),
            final(self)@.players == unregistered(old(self)@.players, addr),
            outbound_view(out@) == match client_at(old(self)@.players, addr) {
                Some(client) => broadcast(unregistered(old(self)@.players, addr), exit_envelope(client)),
                None => Seq::empty(),
            },
    {
        let at = self.find_connection(addr);
        if at < self.connection.len() {
            self.connection.remove(at);
        }
        match self.players.remove(addr) {
            Some(client) => {
                let msg = exit_lobby_message(&client);
                broadcast_to_all(&self.players, &msg)
            },
            None => {
                let out: Vec<Outbound> = Vec::new();
                assert(outbound_view(out@) == Seq::<OutboundView>::empty());
                out
            },
        }
    }

    /// Handles one transport event: updates the roster and the session table,
    /// and returns the envelopes to send, or the reason the event's message
    /// was dropped.
    pub fn handle_event(&mut self, event: &NetworkEvent) -> (outcome: Result<
        Vec<Outbound>,
        RelayError,
    >)
        ensures
            outcome_view(outcome) == event_outcome(old(self)@, event@),
            final(self)@ == state_after(old(self)@, event@),
    {
        match event {
            NetworkEvent::Message(addr, payload) => {
                match TransMessage::deserialize(payload.as_slice()) {
                    Ok(envelope) => self.handle_message(*addr, &envelope),
                    Err(e) => Err(RelayError::Malformed(e)),
                }
            },
            NetworkEvent::Connect(addr) => {
                self.connect(*addr);
                let out: Vec<Outbound> = Vec::new();
                assert(outbound_view(out@) == Seq::<OutboundView>::empty());
                Ok(out)
            },
            NetworkEvent::Disconnect(addr) => Ok(self.disconnect(*addr)),
            NetworkEvent::RecvError(_) => {
                let out: Vec<Outbound> = Vec::new();
                assert(outbound_view(out@) == Seq::<OutboundView>::empty());
                Ok(out)
            },
        }
    }
}

/// The events of a list, each by its view.
pub open spec fn events_view(events: Seq<NetworkEvent>) -> Seq<NetworkEventView> {
    events.map_values(|e: NetworkEvent| e@)
}

/// The outcomes of a list, each by its view.
pub open spec fn outcomes_view(outcomes: Seq<Result<Vec<Outbound>, RelayError>>) -> Seq<
    Result<Seq<OutboundView>, RelayError>,
> {
    outcomes.map_values(|o: Result<Vec<Outbound>, RelayError>| outcome_view(o))
}

/// The state after all of `events`, taken in order.
pub open spec fn state_after_all(state: ServiceView, events: Seq<NetworkEventView>) -> ServiceView
    decreases events.len(),
{
    if events.len() == 0 {
        state
    } else {
        state_after(state_after_all(state, events.drop_last()), events.last())
    }
}

/// The outcome of each of `events`, taken in order from `state`.
pub open spec fn run_outcomes(state: ServiceView, events: Seq<NetworkEventView>) -> Seq<
    Result<Seq<OutboundView>, RelayError>,
>
    decreases events.len(),
{
    if events.len() == 0 {
        Seq::empty()
    } else {
        run_outcomes(state, events.drop_last()).push(
            event_outcome(state_after_all(state, events.drop_last()), events.last()),
        )
    }
}

impl ServiceSystem {
    /// Handles the events of one tick in order, and returns the outcome of each.
    pub fn run(&mut self, events: &Vec<NetworkEvent>) -> (outcomes: Vec<
        Result<Vec<Outbound>, RelayError>,
    >)
        ensures
            final(self)@ == state_after_all(old(self)@, events_view(events@)),
            outcomes_view(outcomes@) == run_outcomes(old(self)@, events_view(events@)),
    {
        let mut outcomes: Vec<Result<Vec<Outbound>, RelayError>> = Vec::new();
        let ghost all = events_view(events@);
        let mut i: usize = 0;
        while i < events.len()
            invariant
                i <= events.len(),
                all == events_view(events@),
                self@ == state_after_all(old(self)@, all.take(i as int)),
                outcomes_view(outcomes@) == run_outcomes(old(self)@, all.take(i as int)),
            decreases events.len() - i,
        {
            let ghost before = outcomes@;
            let outcome = self.handle_event(&events[i]);
            proof {
                assert(all.take(i + 1).drop_last() == all.take(i as int));
                assert(all.take(i + 1).last() == events@[i as int]@);
            }
            outcomes.push(outcome);
            proof {
                assert(outcomes_view(outcomes@) == outcomes_view(before).push(
                    outcome_view(outcome),
                ));
            }
            i += 1;
        }
        proof {
            assert(all.take(i as int) == all);
        }
        outcomes
    }
}

impl Default for ServiceSystem {
    fn default() -> (system: Self)
        ensures
            system@.connection == Seq::<Address>::empty(),
            system@.players == Seq::<SessionView>::empty(),
    {
        ServiceSystem::new()
    }
}

/// Where a connection stands in its life.
#[derive(Debug, Clone, Copy, PartialEq, Eq, Structural)]
pub enum ConnectionState {
    /// Open, but its client has not entered the lobby.
    Accepted,
    /// Open, with a client in the lobby.
    Active,
    /// Not open.
    Closed,
}

/// The state of the connection of `addr`.
pub open spec fn state_of(state: ServiceView, addr: Address) -> ConnectionState {
    if !state.connection.contains(addr) {
        ConnectionState::Closed
    } else if has_session(state.players, addr) {
        ConnectionState::Active
    } else {
        ConnectionState::Accepted
    }
}

impl ServiceSystem {
    /// The state of the connection of `addr`.
    pub fn connection_state(&self, addr: Address) -> (state: ConnectionState)
        ensures
            state == state_of(self@, addr),
    {
        let at = self.find_connection(addr);
        if at == self.connection.len() {
            ConnectionState::Closed
        } else {
            if self.players.contains(addr) {
                ConnectionState::Active
            } else {
                ConnectionState::Accepted
            }
        }
    }
}

} // verus!
