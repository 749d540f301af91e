//! The client's message system: it keeps the list of players it has been
//! told about, and turns relayed envelopes into notifications for the
//! presentation layer.

use vstd::prelude::*;
use vstd::string::StringExecFns;
use crate::clientinfo::{client_text, ClientInfo, ClientInfoView};
use crate::listing::{first_index, lemma_first_index, lemma_first_index_is, without_first};
use crate::msg::{
    envelope_of_wire, MessageLayer, MessageType, TransMessage, TransMessageView,
};
use crate::service::{chat_envelope, enter_envelope, RelayError};

verus! {

/// What the presentation layer is told about the lobby.
#[derive(Debug)]
pub enum ConnectionEvent {
    /// A player entered the lobby.
    EnterLobby(ClientInfo),
    /// A player left.
    ExitGame(ClientInfo),
}

/// A [`ConnectionEvent`] in contracts.
pub enum ConnectionEventView {
    EnterLobby(ClientInfoView),
    ExitGame(ClientInfoView),
}

impl View for ConnectionEvent {
    type V = ConnectionEventView;

    open spec fn view(&self) -> ConnectionEventView {
        match self {
            ConnectionEvent::EnterLobby(c) => ConnectionEventView::EnterLobby(c@),
            ConnectionEvent::ExitGame(c) => ConnectionEventView::ExitGame(c@),
        }
    }
}

impl Clone for ConnectionEvent {
    fn clone(&self) -> (copy: Self)
        ensures
            copy == *self,
    {
        match self {
            ConnectionEvent::EnterLobby(c) => ConnectionEvent::EnterLobby(c.clone()),
            ConnectionEvent::ExitGame(c) => ConnectionEvent::ExitGame(c.clone()),
        }
    }
}

/// What the client does about an envelope it received.
#[derive(Debug)]
pub enum ClientAction {
    /// Tell the presentation layer.
    Notify(ConnectionEvent),
    /// Append this line to the chat box.
    AppendChat(String),
    /// Nothing: the envelope tells nothing new.
    Ignore,
}

/// A [`ClientAction`] in contracts.
pub enum ClientActionView {
    Notify(ConnectionEventView),
    AppendChat(Seq<char>),
    Ignore,
}

impl View for ClientAction {
    type V = ClientActionView;

    open spec fn view(&self) -> ClientActionView {
        match self {
            ClientAction::Notify(e) => ClientActionView::Notify(e@),
            ClientAction::AppendChat(line) => ClientActionView::AppendChat(line@),
            ClientAction::Ignore => ClientActionView::Ignore,
        }
    }
}

/// The clients of a list, each by its view.
pub open spec fn clients_view(clients: Seq<ClientInfo>) -> Seq<ClientInfoView> {
    clients.map_values(|c: ClientInfo| c@)
}

/// The line that shows a chat text in the chat box: `[name:port]:text`, a
/// space and a line feed.
pub open spec fn chat_line(from: ClientInfoView, msg: Seq<char>) -> Seq<char> {
    "["@ + client_text(from) + "]:"@ + msg + " \n"@
}

/// What the client does about the envelope `t`, knowing `players`.
///
/// * `Connection`/`EnterLobby` of a player it does not know: notify.
/// * `Connection`/`ExitLobby` of a player it knows: notify.
/// * `Chat`: the chat line.
/// * `System`, `Lobby`, `Game`: `Unsupported`.
/// * anything else: ignore.
pub open spec fn client_action(players: Seq<ClientInfoView>, t: TransMessageView) -> Result<
    ClientActionView,
    RelayError,
> {
    match t.layer {
        MessageLayer::Connection => match t.message.msg_type {
            MessageType::EnterLobby => Ok(
                if players.contains(t.message.from) {
                    ClientActionView::Ignore
                } else {
                    ClientActionView::Notify(ConnectionEventView::EnterLobby(t.message.from))
                },
            ),
            MessageType::ExitLobby => Ok(
                if players.contains(t.message.from) {
                    ClientActionView::Notify(ConnectionEventView::ExitGame(t.message.from))
                } else {
                    ClientActionView::Ignore
                },
            ),
            _ => Ok(ClientActionView::Ignore),
        },
        MessageLayer::Chat => Ok(ClientActionView::AppendChat(chat_line(t.message.from, t.message.msg))),
        layer => Err(RelayError::Unsupported(layer)),
    }
}

/// The players the client knows after the envelope `t`: a player that
/// enters goes to the end unless it is known already, a player that leaves
/// is taken out.
pub open spec fn players_after(players: Seq<ClientInfoView>, t: TransMessageView) -> Seq<
    ClientInfoView,
> {
    match (t.layer, t.message.msg_type) {
        (MessageLayer::Connection, MessageType::EnterLobby) => if players.contains(t.message.from) {
            players
        } else {
            players.push(t.message.from)
        },
        (MessageLayer::Connection, MessageType::ExitLobby) => without_first(players, t.message.from),
        _ => players,
    }
}

/// The outcome of receiving in contracts.
pub open spec fn action_view(outcome: Result<ClientAction, RelayError>) -> Result<
    ClientActionView,
    RelayError,
> {
    match outcome {
        Ok(action) => Ok(action@),
        Err(e) => Err(e),
    }
}

/// The client's message system.
pub struct MessageSystem {
    client_info: ClientInfo,
    players: Vec<ClientInfo>,
}

/// A [`MessageSystem`] in contracts.
pub struct MessageSystemView {
    /// Who this client is.
    pub client_info: ClientInfoView,
    /// The players this client has been told about, in the order in which
    /// they entered.
    pub players: Seq<ClientInfoView>,
}

impl View for MessageSystem {
    type V = MessageSystemView;

    closed spec fn view(&self) -> MessageSystemView {
        MessageSystemView { client_info: self.client_info@, players: clients_view(self.players@) }
    }
}

/// Writes the chat line of `msg` from `from`.
pub fn write_chat_line(from: &ClientInfo, msg: &str) -> (line: String)
    ensures
        line@ == chat_line(from@, msg@),
{
    let mut line = String::from_str("[");
    line.append(from.to_string().as_str());
    line.append("]:");
    line.append(msg);
    line.append(" \n");
    line
}

impl MessageSystem {
    /// The message system of the client `client_info`, knowing no player yet.
    pub fn new(client_info: ClientInfo) -> (system: Self)
        ensures
            system@.client_info == client_info@,
            system@.players == Seq::<ClientInfoView>::empty(),
    {
        let system = Self { client_info, players: Vec::new() };
        assert(clients_view(system.players@) == Seq::<ClientInfoView>::empty());
        system
    }

    /// Who this client is.
    pub fn client_info(&self) -> (c: &ClientInfo)
        ensures
            c@ == self@.client_info,
    {
        &self.client_info
    }

    /// The players this client has been told about.
    pub fn players(&self) -> (players: &Vec<ClientInfo>)
        ensures
            clients_view(players@) == self@.players,
    {
        &self.players
    }

    /// The envelope with which this client asks to enter the lobby.
    pub fn compose_enter_lobby(&self) -> (t: TransMessage)
        ensures
            t@ == enter_envelope(self@.client_info),
    {
        TransMessage::new(
            MessageLayer::Connection,
            self.client_info.clone(),
            MessageType::EnterLobby,
            String::from_str("enter lobby"),
        )
    }

    /// The envelope that carries what the user typed, and an empty input box.
    pub fn compose_chat(&self, input: &mut String) -> (t: TransMessage)
        ensures
            t@ == chat_envelope(self@.client_info, old(input)@),
            final(input)@ == Seq::<char>::empty(),
    {
        let mut text = String::new();
        std::mem::swap(input, &mut text);
        TransMessage::new(MessageLayer::Chat, self.client_info.clone(), MessageType::Chat, text)
    }

    /// Where `client` first stands among the players.
    fn find(&self, client: &ClientInfo) -> (at: usize)
        ensures
            at == first_index(self@.players, client@),
            at <= self.players@.len(),
            self@.players.len() == self.players@.len(),
            at < self.players@.len() <==> self@.players.contains(client@),
    {
        let mut i: usize = 0;
        while i < self.players.len() && !(self.players[i] == *client)
            invariant
                i <= self.players.len(),
                forall|j: int| 0 <= j < i ==> self@.players[j] != client@,
            decreases self.players.len() - i,
        {
            i += 1;
        }
        proof {
            lemma_first_index_is(self@.players, client@, i as int);
            lemma_first_index(self@.players, client@);
        }
        i
    }

    /// Takes in an envelope from the server.
    pub fn receive(&mut self, envelope: &TransMessage) -> (outcome: Result<ClientAction, RelayError>)
        ensures
            action_view(outcome) == client_action(old(self)@.players, envelope@),
            final(self)@.players == players_after(old(self)@.players, envelope@),
            final(self)@.client_info == old(self)@.client_info,
    {
        let m = envelope.message();
        match envelope.layer() {
            MessageLayer::Connection => match m.msg_type {
                MessageType::EnterLobby => {
                    let at = self.find(&m.from);
                    if at < self.players.len() {
                        Ok(ClientAction::Ignore)
                    } else {
                        let ghost before = self.players@;
                        self.players.push(m.from.clone());
                        assert(clients_view(self.players@) == clients_view(before).push(m.from@));
                        Ok(ClientAction::Notify(ConnectionEvent::EnterLobby(m.from.clone())))
                    }
                },
                MessageType::ExitLobby => {
                    let at = self.find(&m.from);
                    if at < self.players.len() {
                        let ghost before = self.players@;
                        self.players.remove(at);
                        assert(clients_view(self.players@) == clients_view(before).remove(
                            at as int,
                        ));
                        Ok(ClientAction::Notify(ConnectionEvent::ExitGame(m.from.clone())))
                    } else {
                        Ok(ClientAction::Ignore)
                    }
                },
                _ => Ok(ClientAction::Ignore),
            },
            MessageLayer::Chat => Ok(
                ClientAction::AppendChat(write_chat_line(&m.from, m.msg.as_str())),
            ),
            MessageLayer::System => Err(RelayError::Unsupported(MessageLayer::System)),
            MessageLayer::Lobby => Err(RelayError::Unsupported(MessageLayer::Lobby)),
            MessageLayer::Game => Err(RelayError::Unsupported(MessageLayer::Game)),
        }
    }

    /// Takes in a payload from the server: reads the envelope, then does as
    /// `receive` does. What is no envelope is dropped as `Malformed`.
    pub fn receive_payload(&mut self, payload: &[u8]) -> (outcome: Result<ClientAction, RelayError>)
        ensures
            match envelope_of_wire(payload@) {
                Ok(t) => {
                    &&& action_view(outcome) == client_action(old(self)@.players, t)
                    &&& final(self)@.players == players_after(old(self)@.players, t)
                },
                Err(e) => {
                    &&& outcome == Err::<ClientAction, RelayError>(RelayError::Malformed(e))
                    &&& final(self)@.players == old(self)@.players
                },
            },
            final(self)@.client_info == old(self)@.client_info,
    {
        match TransMessage::deserialize(payload) {
            Ok(envelope) => self.receive(&envelope),
            Err(e) => Err(RelayError::Malformed(e)),
        }
    }
}

} // verus!
