//! The message envelope and its wire format.
//!
//! On the wire an envelope is one JSON object with a single member, keyed by
//! the layer's tag:
//!
//! ```text
//! {"<Layer>":{"from":{"name":<string>,"port":<number>},"msg_type":"<Type>","msg":<string>}}
//! ```

use vstd::prelude::*;
use vstd::string::StringExecFns;
use crate::clientinfo::{client_text, ClientInfo, ClientInfoView};
use crate::json::{
    json_object_members, json_port_value, json_string_text, json_string_value, members_view,
    read_json_object, read_json_port, read_json_string, write_json_string, Member, MemberView,
};
use crate::text::{decimal_text, push_decimal};

verus! {

/// The layer an envelope belongs to; it decides how the server dispatches it.
#[derive(Debug, Clone, Copy, PartialEq, Eq, Structural)]
pub enum MessageLayer {
    /// Information for the info box.
    System,
    /// Connection management: entering and leaving the lobby.
    Connection,
    /// Chat text.
    Chat,
    /// Lobby state.
    Lobby,
    /// In-game information.
    Game,
}

/// What a message is about.
#[derive(Debug, Clone, Copy, PartialEq, Eq, Structural)]
pub enum MessageType {
    ExitLobby,
    EnterLobby,
    Prepare,
    CancelPrepare,
    Chat,
}

/// Why an envelope could not be written or read.
#[derive(Debug, Clone, Copy, PartialEq, Eq, Structural)]
pub enum MessageError {
    /// The bytes are JSON, but not of the shape of an envelope.
    FromBytesError,
    /// The JSON library reported an error.
    SerdeJsonError,
}

impl From<serde_json::Error> for MessageError {
    fn from(_e: serde_json::Error) -> (err: MessageError) {
        MessageError::SerdeJsonError
    }
}

impl vstd::std_specs::convert::FromSpecImpl<serde_json::Error> for MessageError {
    open spec fn obeys_from_spec() -> bool {
        true
    }

    open spec fn from_spec(_e: serde_json::Error) -> MessageError {
        MessageError::SerdeJsonError
    }
}

/// A message: who sent it, what it is about, and its text.
#[derive(Debug)]
pub struct Message {
    pub from: ClientInfo,
    pub msg_type: MessageType,
    pub msg: String,
}

/// A [`Message`] in contracts.
pub struct MessageView {
    pub from: ClientInfoView,
    pub msg_type: MessageType,
    pub msg: Seq<char>,
}

impl View for Message {
    type V = MessageView;

    open spec fn view(&self) -> MessageView {
        MessageView { from: self.from@, msg_type: self.msg_type, msg: self.msg@ }
    }
}

impl Clone for Message {
    fn clone(&self) -> (copy: Self)
        ensures
            copy == *self,
    {
        Message { from: self.from.clone(), msg_type: self.msg_type, msg: self.msg.clone() }
    }
}

impl PartialEq for Message {
    fn eq(&self, other: &Self) -> (same: bool) {
        self.from == other.from && self.msg_type == other.msg_type && self.msg == other.msg
    }
}

impl Eq for Message {}

impl vstd::std_specs::cmp::PartialEqSpecImpl for Message {
    open spec fn obeys_eq_spec() -> bool {
        true
    }

    open spec fn eq_spec(&self, other: &Self) -> bool {
        self@ == other@
    }
}

/// The envelope: one message, tagged with the layer it belongs to.
#[derive(Debug)]
pub enum TransMessage {
    Connection(Message),
    System(Message),
    Lobby(Message),
    Chat(Message),
    Game(Message),
}

/// A [`TransMessage`] in contracts: the layer and the message it wraps.
pub struct TransMessageView {
    pub layer: MessageLayer,
    pub message: MessageView,
}

impl View for TransMessage {
    type V = TransMessageView;

    open spec fn view(&self) -> TransMessageView {
        match self {
            TransMessage::Connection(m) => TransMessageView {
                layer: MessageLayer::Connection,
                message: m@,
            },
            TransMessage::System(m) => TransMessageView { layer: MessageLayer::System, message: m@ },
            TransMessage::Lobby(m) => TransMessageView { layer: MessageLayer::Lobby, message: m@ },
            TransMessage::Chat(m) => TransMessageView { layer: MessageLayer::Chat, message: m@ },
            TransMessage::Game(m) => TransMessageView { layer: MessageLayer::Game, message: m@ },
        }
    }
}

impl Clone for TransMessage {
    fn clone(&self) -> (copy: Self)
        ensures
            copy == *self,
    {
        match self {
            TransMessage::Connection(m) => TransMessage::Connection(m.clone()),
            TransMessage::System(m) => TransMessage::System(m.clone()),
            TransMessage::Lobby(m) => TransMessage::Lobby(m.clone()),
            TransMessage::Chat(m) => TransMessage::Chat(m.clone()),
            TransMessage::Game(m) => TransMessage::Game(m.clone()),
        }
    }
}

impl PartialEq for TransMessage {
    fn eq(&self, other: &Self) -> (same: bool) {
        self.layer() == other.layer() && *self.message() == *other.message()
    }
}

impl Eq for TransMessage {}

impl vstd::std_specs::cmp::PartialEqSpecImpl for TransMessage {
    open spec fn obeys_eq_spec() -> bool {
        true
    }

    open spec fn eq_spec(&self, other: &Self) -> bool {
        self@ == other@
    }
}

impl Message {
    pub fn new(from: ClientInfo, msg_type: MessageType, msg: String) -> (m: Message)
        ensures
            m.from == from,
            m.msg_type == msg_type,
            m.msg == msg,
    {
        Message { from, msg_type, msg }
    }
}

impl TransMessage {
    /// An envelope on `layer` around a new message.
    pub fn new(layer: MessageLayer, from: ClientInfo, msg_type: MessageType, msg: String) -> (t:
        TransMessage)
        ensures
            t@.layer == layer,
            *t.spec_message() == (Message { from, msg_type, msg }),
    {
        let msg = Message::new(from, msg_type, msg);
        TransMessage::construct(layer, msg)
    }

    /// Wraps `m` in the envelope of `layer`.
    pub fn construct(layer: MessageLayer, m: Message) -> (t: TransMessage)
        ensures
            t@.layer == layer,
            *t.spec_message() == m,
    {
        match layer {
            MessageLayer::System => TransMessage::System(m),
            MessageLayer::Connection => TransMessage::Connection(m),
            MessageLayer::Chat => TransMessage::Chat(m),
            MessageLayer::Lobby => TransMessage::Lobby(m),
            MessageLayer::Game => TransMessage::Game(m),
        }
    }

    /// The same message in the envelope of another layer.
    pub fn update_layer(&self, layer: MessageLayer) -> (t: Self)
        ensures
            t@.layer == layer,
            t.spec_message() == self.spec_message(),
    {
        TransMessage::construct(layer, self.message().clone())
    }

    /// The message inside the envelope.
    pub open spec fn spec_message(&self) -> &Message {
        match self {
            TransMessage::Connection(m) => m,
            TransMessage::System(m) => m,
            TransMessage::Lobby(m) => m,
            TransMessage::Chat(m) => m,
            TransMessage::Game(m) => m,
        }
    }

    /// The message inside the envelope.
    #[verifier::when_used_as_spec(spec_message)]
    pub fn message(&self) -> (m: &Message)
        ensures
            m == self.spec_message(),
            m@ == self@.message,
    {
        match self {
            TransMessage::System(m) => m,
            TransMessage::Connection(m) => m,
            TransMessage::Chat(m) => m,
            TransMessage::Lobby(m) => m,
            TransMessage::Game(m) => m,
        }
    }

    /// The layer of the envelope.
    pub fn layer(&self) -> (layer: MessageLayer)
        ensures
            layer == self@.layer,
    {
        match self {
            TransMessage::System(_) => MessageLayer::System,
            TransMessage::Connection(_) => MessageLayer::Connection,
            TransMessage::Chat(_) => MessageLayer::Chat,
            TransMessage::Lobby(_) => MessageLayer::Lobby,
            TransMessage::Game(_) => MessageLayer::Game,
        }
    }
}

/// The tag that names a layer on the wire.
pub open spec fn layer_tag(layer: MessageLayer) -> Seq<char> {
    match layer {
        MessageLayer::System => "System"@,
        MessageLayer::Connection => "Connection"@,
        MessageLayer::Chat => "Chat"@,
        MessageLayer::Lobby => "Lobby"@,
        MessageLayer::Game => "Game"@,
    }
}

/// The layer that a tag names, if it names one.
pub open spec fn layer_of_tag(tag: Seq<char>) -> Option<MessageLayer> {
    if tag == "System"@ {
        Some(MessageLayer::System)
    } else if tag == "Connection"@ {
        Some(MessageLayer::Connection)
    } else if tag == "Chat"@ {
        Some(MessageLayer::Chat)
    } else if tag == "Lobby"@ {
        Some(MessageLayer::Lobby)
    } else if tag == "Game"@ {
        Some(MessageLayer::Game)
    } else {
        None
    }
}

/// The tag that names a message type on the wire.
pub open spec fn type_tag(msg_type: MessageType) -> Seq<char> {
    match msg_type {
        MessageType::ExitLobby => "ExitLobby"@,
        MessageType::EnterLobby => "EnterLobby"@,
        MessageType::Prepare => "Prepare"@,
        MessageType::CancelPrepare => "CancelPrepare"@,
        MessageType::Chat => "Chat"@,
    }
}

/// The message type that a tag names, if it names one.
pub open spec fn type_of_tag(tag: Seq<char>) -> Option<MessageType> {
    if tag == "ExitLobby"@ {
        Some(MessageType::ExitLobby)
    } else if tag == "EnterLobby"@ {
        Some(MessageType::EnterLobby)
    } else if tag == "Prepare"@ {
        Some(MessageType::Prepare)
    } else if tag == "CancelPrepare"@ {
        Some(MessageType::CancelPrepare)
    } else if tag == "Chat"@ {
        Some(MessageType::Chat)
    } else {
        None
    }
}

/// Whether two strings hold the same characters.
fn same_text(a: &str, b: &str) -> (same: bool)
    ensures
        same == (a@ == b@),
{
    let x = a.to_owned();
    let y = b.to_owned();
    x == y
}

impl MessageLayer {
    /// The tag that names this layer on the wire.
    pub fn tag(self) -> (tag: &'static str)
        ensures
            tag@ == layer_tag(self),
    {
        match self {
            MessageLayer::System => "System",
            MessageLayer::Connection => "Connection",
            MessageLayer::Chat => "Chat",
            MessageLayer::Lobby => "Lobby",
            MessageLayer::Game => "Game",
        }
    }

    /// The layer that `tag` names.
    pub fn of_tag(tag: &str) -> (layer: Option<MessageLayer>)
        ensures
            layer == layer_of_tag(tag@),
    {
        if same_text(tag, "System") {
            Some(MessageLayer::System)
        } else if same_text(tag, "Connection") {
            Some(MessageLayer::Connection)
        } else if same_text(tag, "Chat") {
            Some(MessageLayer::Chat)
        } else if same_text(tag, "Lobby") {
            Some(MessageLayer::Lobby)
        } else if same_text(tag, "Game") {
            Some(MessageLayer::Game)
        } else {
            None
        }
    }
}

impl MessageType {
    /// The tag that names this message type on the wire.
    pub fn tag(self) -> (tag: &'static str)
        ensures
            tag@ == type_tag(self),
    {
        match self {
            MessageType::ExitLobby => "ExitLobby",
            MessageType::EnterLobby => "EnterLobby",
            MessageType::Prepare => "Prepare",
            MessageType::CancelPrepare => "CancelPrepare",
            MessageType::Chat => "Chat",
        }
    }

    /// The message type that `tag` names.
    pub fn of_tag(tag: &str) -> (msg_type: Option<MessageType>)
        ensures
            msg_type == type_of_tag(tag@),
    {
        if same_text(tag, "ExitLobby") {
            Some(MessageType::ExitLobby)
        } else if same_text(tag, "EnterLobby") {
            Some(MessageType::EnterLobby)
        } else if same_text(tag, "Prepare") {
            Some(MessageType::Prepare)
        } else if same_text(tag, "CancelPrepare") {
            Some(MessageType::CancelPrepare)
        } else if same_text(tag, "Chat") {
            Some(MessageType::Chat)
        } else {
            None
        }
    }
}

/// Each layer is named by a tag of its own.
pub proof fn lemma_layer_tag_round_trip(layer: MessageLayer)
    ensures
        layer_of_tag(layer_tag(layer)) == Some(layer),
{
    reveal_strlit("System");
    reveal_strlit("Connection");
    reveal_strlit("Chat");
    reveal_strlit("Lobby");
    reveal_strlit("Game");
    assert("System"@.len() == 6);
    assert("Connection"@.len() == 10);
    assert("Lobby"@.len() == 5);
    assert("Chat"@.len() == 4 && "Chat"@[0] == 'C');
    assert("Game"@.len() == 4 && "Game"@[0] == 'G');
}

/// Each message type is named by a tag of its own.
pub proof fn lemma_type_tag_round_trip(msg_type: MessageType)
    ensures
        type_of_tag(type_tag(msg_type)) == Some(msg_type),
{
    reveal_strlit("ExitLobby");
    reveal_strlit("EnterLobby");
    reveal_strlit("Prepare");
    reveal_strlit("CancelPrepare");
    reveal_strlit("Chat");
    assert("ExitLobby"@.len() == 9);
    assert("EnterLobby"@.len() == 10);
    assert("Prepare"@.len() == 7);
    assert("CancelPrepare"@.len() == 13);
    assert("Chat"@.len() == 4);
}

/// The plain values an envelope is made of on the wire: the two tags as
/// text, and the sender and the message text as they are.
#[derive(Debug)]
pub struct WireParts {
    pub layer: String,
    pub name: String,
    pub port: u16,
    pub msg_type: String,
    pub msg: String,
}

/// A [`WireParts`] in contracts.
pub struct WirePartsView {
    pub layer: Seq<char>,
    pub name: Seq<char>,
    pub port: u16,
    pub msg_type: Seq<char>,
    pub msg: Seq<char>,
}

impl View for WireParts {
    type V = WirePartsView;

    open spec fn view(&self) -> WirePartsView {
        WirePartsView {
            layer: self.layer@,
            name: self.name@,
            port: self.port,
            msg_type: self.msg_type@,
            msg: self.msg@,
        }
    }
}

/// The parts that an envelope is written from.
pub open spec fn parts_of_envelope(t: TransMessageView) -> WirePartsView {
    WirePartsView {
        layer: layer_tag(t.layer),
        name: t.message.from.name,
        port: t.message.from.port,
        msg_type: type_tag(t.message.msg_type),
        msg: t.message.msg,
    }
}

/// The envelope that parts read as: both tags must name something.
pub open spec fn envelope_of_parts(p: WirePartsView) -> Result<TransMessageView, MessageError> {
    match (layer_of_tag(p.layer), type_of_tag(p.msg_type)) {
        (Some(layer), Some(msg_type)) => Ok(
            TransMessageView {
                layer,
                message: MessageView {
                    from: ClientInfoView { name: p.name, port: p.port },
                    msg_type,
                    msg: p.msg,
                },
            },
        ),
        _ => Err(MessageError::FromBytesError),
    }
}

/// The text of an envelope, given the tags, the port, and the JSON texts of
/// the name and of the message text.
pub open spec fn frame_text(
    layer: Seq<char>,
    name_json: Seq<char>,
    port: u16,
    msg_type: Seq<char>,
    msg_json: Seq<char>,
) -> Seq<char> {
    "{\""@ + layer + "\":{\"from\":{\"name\":"@ + name_json + ",\"port\":"@ + decimal_text(
        port as nat,
    ) + "},\"msg_type\":\""@ + msg_type + "\",\"msg\":"@ + msg_json + "}}"@
}

/// The text that parts are written as.
pub open spec fn parts_text(p: WirePartsView) -> Seq<char> {
    frame_text(p.layer, json_string_text(p.name), p.port, p.msg_type, json_string_text(p.msg))
}

/// The text that an envelope is written as.
pub open spec fn wire_text(t: TransMessageView) -> Seq<char> {
    parts_text(parts_of_envelope(t))
}

/// The value of the first member of `members` keyed `key`.
pub open spec fn member_value(members: Seq<MemberView>, key: Seq<char>) -> Option<Seq<u8>>
    decreases members.len(),
{
    if members.len() == 0 {
        None
    } else if members[0].key == key {
        Some(members[0].value)
    } else {
        member_value(members.drop_first(), key)
    }
}

/// The sender that the JSON text of a `from` member reads as.
pub open spec fn client_of_wire(text: Seq<u8>) -> Result<ClientInfoView, MessageError> {
    match json_object_members(text) {
        None => Err(MessageError::SerdeJsonError),
        Some(members) => match (member_value(members, "name"@), member_value(members, "port"@)) {
            (Some(name_json), Some(port_json)) => match (
                json_string_value(name_json),
                json_port_value(port_json),
            ) {
                (Some(name), Some(port)) => Ok(ClientInfoView { name, port }),
                _ => Err(MessageError::SerdeJsonError),
            },
            _ => Err(MessageError::FromBytesError),
        },
    }
}

/// The parts that the bytes of an envelope read as.
///
/// The bytes must be a JSON object with exactly one member, whose value is an
/// object with members `from`, `msg_type` and `msg`; `from` is an object with
/// members `name` and `port`. Other members are ignored. What is no JSON of
/// the expected kind is a `SerdeJsonError`; a missing member, or more or
/// fewer than one layer, is a `FromBytesError`.
///
/// An object is read as a map, so a key that the text repeats is one member,
/// with the value that the text gives last. A repeated `msg` is therefore
/// read as its last value, and a layer tag that is repeated counts as one
/// layer; neither is refused.
pub open spec fn parts_of_wire(bytes: Seq<u8>) -> Result<WirePartsView, MessageError> {
    match json_object_members(bytes) {
        None => Err(MessageError::SerdeJsonError),
        Some(layers) => if layers.len() != 1 {
            Err(MessageError::FromBytesError)
        } else {
            match json_object_members(layers[0].value) {
                None => Err(MessageError::SerdeJsonError),
                Some(members) => match (
                    member_value(members, "from"@),
                    member_value(members, "msg_type"@),
                    member_value(members, "msg"@),
                ) {
                    (Some(from_json), Some(type_json), Some(msg_json)) => match (
                        client_of_wire(from_json),
                        json_string_value(type_json),
                        json_string_value(msg_json),
                    ) {
                        (Err(e), _, _) => Err(e),
                        (Ok(from), Some(msg_type), Some(msg)) => Ok(
                            WirePartsView {
                                layer: layers[0].key,
                                name: from.name,
                                port: from.port,
                                msg_type,
                                msg,
                            },
                        ),
                        _ => Err(MessageError::SerdeJsonError),
                    },
                    _ => Err(MessageError::FromBytesError),
                },
            }
        },
    }
}

/// The envelope that bytes read as.
pub open spec fn envelope_of_wire(bytes: Seq<u8>) -> Result<TransMessageView, MessageError> {
    match parts_of_wire(bytes) {
        Ok(parts) => envelope_of_parts(parts),
        Err(e) => Err(e),
    }
}

/// Writes the text of an envelope around the JSON texts of its two strings.
pub fn frame(layer: &str, name_json: &str, port: u16, msg_type: &str, msg_json: &str) -> (text:
    String)
    ensures
        text@ == frame_text(layer@, name_json@, port, msg_type@, msg_json@),
{
    let mut text = String::from_str("{\"");
    text.append(layer);
    text.append("\":{\"from\":{\"name\":");
    text.append(name_json);
    text.append(",\"port\":");
    push_decimal(&mut text, port);
    text.append("},\"msg_type\":\"");
    text.append(msg_type);
    text.append("\",\"msg\":");
    text.append(msg_json);
    text.append("}}");
    text
}

/// Finds the value of the first member keyed `key`.
pub fn find_member<'a>(members: &'a Vec<Member>, key: &str) -> (value: Option<&'a Vec<u8>>)
    ensures
        match value {
            Some(v) => member_value(members_view(members@), key@) == Some(v@),
            None => member_value(members_view(members@), key@) is None,
        },
{
    let ghost all = members_view(members@);
    let mut i: usize = 0;
    assert(all.skip(0) == all);
    while i < members.len()
        invariant
            i <= members.len(),
            all == members_view(members@),
            member_value(all, key@) == member_value(all.skip(i as int), key@),
        decreases members.len() - i,
    {
        proof {
            assert(all.skip(i as int)[0] == members@[i as int]@);
            assert(all.skip(i as int).drop_first() == all.skip(i + 1));
        }
        if same_text(members[i].key.as_str(), key) {
            return Some(&members[i].value);
        }
        i += 1;
    }
    assert(all.skip(i as int).len() == 0);
    None
}

impl WireParts {
    /// Writes the parts as the text of an envelope. This always succeeds.
    pub fn write(&self) -> (res: Result<String, MessageError>)
        ensures
            res is Ok,
            res matches Ok(text) ==> text@ == parts_text(self@),
    {
        let name_json = match write_json_string(self.name.as_str()) {
            Ok(text) => text,
            Err(e) => {
                return Err(MessageError::from(e));
            },
        };
        let msg_json = match write_json_string(self.msg.as_str()) {
            Ok(text) => text,
            Err(e) => {
                return Err(MessageError::from(e));
            },
        };
        Ok(
            frame(
                self.layer.as_str(),
                name_json.as_str(),
                self.port,
                self.msg_type.as_str(),
                msg_json.as_str(),
            ),
        )
    }

    /// Reads the sender from the JSON text of a `from` member.
    pub fn read_client(text: &[u8]) -> (res: Result<ClientInfo, MessageError>)
        ensures
            match res {
                Ok(c) => client_of_wire(text@) == Ok::<ClientInfoView, MessageError>(c@),
                Err(e) => client_of_wire(text@) == Err::<ClientInfoView, MessageError>(e),
            },
    {
        let members = match read_json_object(text) {
            Ok(members) => members,
            Err(e) => {
                return Err(MessageError::from(e));
            },
        };
        let name_json = find_member(&members, "name");
        let port_json = find_member(&members, "port");
        match (name_json, port_json) {
            (Some(name_json), Some(port_json)) => {
                let name = read_json_string(name_json.as_slice());
                let port = read_json_port(port_json.as_slice());
                match (name, port) {
                    (Ok(name), Ok(port)) => Ok(ClientInfo::new(name, port)),
                    _ => Err(MessageError::SerdeJsonError),
                }
            },
            _ => Err(MessageError::FromBytesError),
        }
    }

    /// Reads the parts of an envelope from its bytes.
    pub fn read(bytes: &[u8]) -> (res: Result<WireParts, MessageError>)
        ensures
            match res {
                Ok(parts) => parts_of_wire(bytes@) == Ok::<WirePartsView, MessageError>(parts@),
                Err(e) => parts_of_wire(bytes@) == Err::<WirePartsView, MessageError>(e),
            },
    {
        let layers = match read_json_object(bytes) {
            Ok(layers) => layers,
            Err(e) => {
                return Err(MessageError::from(e));
            },
        };
        if layers.len() != 1 {
            return Err(MessageError::FromBytesError);
        }
        let members = match read_json_object(layers[0].value.as_slice()) {
            Ok(members) => members,
            Err(e) => {
                return Err(MessageError::from(e));
            },
        };
        let from_json = find_member(&members, "from");
        let type_json = find_member(&members, "msg_type");
        let msg_json = find_member(&members, "msg");
        match (from_json, type_json, msg_json) {
            (Some(from_json), Some(type_json), Some(msg_json)) => {
                let from = match WireParts::read_client(from_json.as_slice()) {
                    Ok(from) => from,
                    Err(e) => {
                        return Err(e);
                    },
                };
                let msg_type = read_json_string(type_json.as_slice());
                let msg = read_json_string(msg_json.as_slice());
                match (msg_type, msg) {
                    (Ok(msg_type), Ok(msg)) => Ok(
                        WireParts {
                            layer: layers[0].key.clone(),
                            name: from.name,
                            port: from.port,
                            msg_type,
                            msg,
                        },
                    ),
                    _ => Err(MessageError::SerdeJsonError),
                }
            },
            _ => Err(MessageError::FromBytesError),
        }
    }
}

impl TransMessage {
    /// The plain values this envelope is written from.
    pub fn to_parts(&self) -> (parts: WireParts)
        ensures
            parts@ == parts_of_envelope(self@),
    {
        let m = self.message();
        WireParts {
            layer: String::from_str(self.layer().tag()),
            name: m.from.name.clone(),
            port: m.from.port,
            msg_type: String::from_str(m.msg_type.tag()),
            msg: m.msg.clone(),
        }
    }

    /// The envelope that parts read as. Fails, with `FromBytesError`, exactly
    /// where one of the two tags names nothing.
    pub fn from_parts(parts: WireParts) -> (res: Result<TransMessage, MessageError>)
        ensures
            match res {
                Ok(t) => envelope_of_parts(parts@) == Ok::<TransMessageView, MessageError>(t@),
                Err(e) => envelope_of_parts(parts@) == Err::<TransMessageView, MessageError>(e),
            },
    {
        let layer = MessageLayer::of_tag(parts.layer.as_str());
        let msg_type = MessageType::of_tag(parts.msg_type.as_str());
        match (layer, msg_type) {
            (Some(layer), Some(msg_type)) => Ok(
                TransMessage::new(layer, ClientInfo::new(parts.name, parts.port), msg_type, parts.msg),
            ),
            _ => Err(MessageError::FromBytesError),
        }
    }

    /// Writes the envelope as text. This always succeeds.
    pub fn serialize(&self) -> (res: Result<String, MessageError>)
        ensures
            res is Ok,
            res matches Ok(text) ==> text@ == wire_text(self@),
    {
        self.to_parts().write()
    }

    /// Reads an envelope from bytes.
    pub fn deserialize(bytes: &[u8]) -> (res: Result<TransMessage, MessageError>)
        ensures
            match res {
                Ok(t) => envelope_of_wire(bytes@) == Ok::<TransMessageView, MessageError>(t@),
                Err(e) => envelope_of_wire(bytes@) == Err::<TransMessageView, MessageError>(e),
            },
    {
        match WireParts::read(bytes) {
            Ok(parts) => TransMessage::from_parts(parts),
            Err(e) => Err(e),
        }
    }
}

/// The label under which an envelope of a layer is shown.
pub open spec fn layer_label(layer: MessageLayer) -> Seq<char> {
    match layer {
        MessageLayer::System => "Default"@,
        MessageLayer::Connection => "S2C"@,
        MessageLayer::Chat => "Ord"@,
        MessageLayer::Lobby => "ConnReq"@,
        MessageLayer::Game => "C2S"@,
    }
}

/// The text that shows an envelope: `label [name:port]: text`.
pub open spec fn envelope_text(t: TransMessageView) -> Seq<char> {
    layer_label(t.layer) + " ["@ + client_text(t.message.from) + "]: "@ + t.message.msg
}

impl MessageLayer {
    /// The label under which an envelope of this layer is shown.
    pub fn label(self) -> (label: &'static str)
        ensures
            label@ == layer_label(self),
    {
        match self {
            MessageLayer::System => "Default",
            MessageLayer::Connection => "S2C",
            MessageLayer::Chat => "Ord",
            MessageLayer::Lobby => "ConnReq",
            MessageLayer::Game => "C2S",
        }
    }
}

impl TransMessage {
    /// The text that shows this envelope.
    pub fn to_string(&self) -> (text: String)
        ensures
            text@ == envelope_text(self@),
    {
        let m = self.message();
        let mut text = String::from_str(self.layer().label());
        text.append(" [");
        text.append(m.from.to_string().as_str());
        text.append("]: ");
        text.append(m.msg.as_str());
        text
    }
}

} // verus!
