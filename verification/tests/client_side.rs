use lobby_relay::client::assets::{AssetType, Avatar, CharacterType, SoundType};
use lobby_relay::client::common::{DepthLayer, Pos};
use lobby_relay::client::components::{Card, CardGroup, Equipment, Player, PlayerState};
use lobby_relay::client::message::{write_chat_line, ClientAction, ConnectionEvent, MessageSystem};
use lobby_relay::client::resources::{
    ChatroomBundle, ClientInfoResource, ServerInfoResource, UserCache, SERVER_ADDRESS,
};
use lobby_relay::clientinfo::ClientInfo;
use lobby_relay::msg::{MessageError, MessageLayer, MessageType, TransMessage};
use lobby_relay::service::RelayError;

fn client(name: &str, port: u16) -> ClientInfo {
    ClientInfo::new(name.to_string(), port)
}

fn envelope(layer: MessageLayer, c: &ClientInfo, msg_type: MessageType, msg: &str) -> TransMessage {
    TransMessage::new(layer, c.clone(), msg_type, msg.to_string())
}

fn entered(action: ClientAction) -> ClientInfo {
    match action {
        ClientAction::Notify(ConnectionEvent::EnterLobby(c)) => c,
        other => panic!("not an entry: {:?}", other),
    }
}

fn left(action: ClientAction) -> ClientInfo {
    match action {
        ClientAction::Notify(ConnectionEvent::ExitGame(c)) => c,
        other => panic!("not an exit: {:?}", other),
    }
}

#[test]
fn client_learns_of_players_once() {
    let mut system = MessageSystem::new(client("me", 2000));
    assert_eq!(system.client_info(), &client("me", 2000));
    assert!(system.players().is_empty());
    let a = client("A", 4001);
    let b = client("B", 4002);
    let t = envelope(MessageLayer::Connection, &a, MessageType::EnterLobby, "enter lobby");
    assert_eq!(entered(system.receive(&t).unwrap()), a);
    assert_eq!(system.players(), &vec![a.clone()]);
    assert!(matches!(system.receive(&t).unwrap(), ClientAction::Ignore));
    assert_eq!(system.players(), &vec![a.clone()]);
    let t = envelope(MessageLayer::Connection, &b, MessageType::EnterLobby, "enter lobby");
    assert_eq!(entered(system.receive(&t).unwrap()), b);
    assert_eq!(system.players(), &vec![a.clone(), b.clone()]);
    let same_name = client("A", 4009);
    let t = envelope(MessageLayer::Connection, &same_name, MessageType::EnterLobby, "enter lobby");
    assert_eq!(entered(system.receive(&t).unwrap()), same_name);
    assert_eq!(system.players().len(), 3);
}

#[test]
fn client_forgets_players_that_leave() {
    let mut system = MessageSystem::new(client("me", 2000));
    let a = client("A", 4001);
    let b = client("B", 4002);
    let c = client("C", 4003);
    for who in [&a, &b, &c] {
        system.receive(&envelope(MessageLayer::Connection, who, MessageType::EnterLobby, "enter lobby")).unwrap();
    }
    let gone = envelope(MessageLayer::Connection, &b, MessageType::ExitLobby, "exit game");
    assert_eq!(left(system.receive(&gone).unwrap()), b);
    assert_eq!(system.players(), &vec![a.clone(), c.clone()]);
    assert!(matches!(system.receive(&gone).unwrap(), ClientAction::Ignore));
    assert_eq!(system.players(), &vec![a.clone(), c.clone()]);
    let gone = envelope(MessageLayer::Connection, &a, MessageType::ExitLobby, "exit game");
    assert_eq!(left(system.receive(&gone).unwrap()), a);
    assert_eq!(system.players(), &vec![c.clone()]);
    let back = envelope(MessageLayer::Connection, &b, MessageType::EnterLobby, "enter lobby");
    assert_eq!(entered(system.receive(&back).unwrap()), b);
    assert_eq!(system.players(), &vec![c, b]);
}

#[test]
fn client_shows_chat_as_a_line() {
    let mut system = MessageSystem::new(client("me", 2000));
    let t = envelope(MessageLayer::Chat, &client("A", 4001), MessageType::Chat, "hello");
    match system.receive(&t).unwrap() {
        ClientAction::AppendChat(line) => assert_eq!(line, "[A:4001]:hello \n"),
        other => panic!("not a chat line: {:?}", other),
    }
    assert!(system.players().is_empty());
    assert_eq!(write_chat_line(&client("", 0), ""), "[:0]: \n");
    let total = "[A:4001]:first \n".to_string();
    assert_eq!(total + &write_chat_line(&client("B", 4002), "second"), "[A:4001]:first \n[B:4002]:second \n");
}

#[test]
fn client_ignores_other_connection_messages() {
    let mut system = MessageSystem::new(client("me", 2000));
    for msg_type in [MessageType::Prepare, MessageType::CancelPrepare, MessageType::Chat] {
        let t = envelope(MessageLayer::Connection, &client("A", 4001), msg_type, "x");
        assert!(matches!(system.receive(&t).unwrap(), ClientAction::Ignore));
    }
    assert!(system.players().is_empty());
}

#[test]
fn client_does_not_serve_reserved_layers() {
    let mut system = MessageSystem::new(client("me", 2000));
    for layer in [MessageLayer::System, MessageLayer::Lobby, MessageLayer::Game] {
        let t = envelope(layer, &client("A", 4001), MessageType::EnterLobby, "x");
        assert_eq!(system.receive(&t).unwrap_err(), RelayError::Unsupported(layer));
    }
    assert!(system.players().is_empty());
}

#[test]
fn client_reads_payloads() {
    let mut system = MessageSystem::new(client("me", 2000));
    let a = client("A", 4001);
    let payload = envelope(MessageLayer::Connection, &a, MessageType::EnterLobby, "enter lobby")
        .serialize()
        .unwrap();
    assert_eq!(entered(system.receive_payload(payload.as_bytes()).unwrap()), a);
    assert_eq!(system.players(), &vec![a.clone()]);
    assert_eq!(
        system.receive_payload(b"A-Connect").unwrap_err(),
        RelayError::Malformed(MessageError::SerdeJsonError)
    );
    assert_eq!(
        system.receive_payload(b"{\"Connection\":{\"msg\":\"m\"}}").unwrap_err(),
        RelayError::Malformed(MessageError::FromBytesError)
    );
    assert_eq!(system.players(), &vec![a]);
}

#[test]
fn client_composes_chat_and_clears_the_input() {
    let system = MessageSystem::new(client("me", 2000));
    let mut input = "hello there".to_string();
    let t = system.compose_chat(&mut input);
    assert_eq!(input, "");
    assert_eq!(t, envelope(MessageLayer::Chat, &client("me", 2000), MessageType::Chat, "hello there"));
    let t = system.compose_chat(&mut input);
    assert_eq!(t, envelope(MessageLayer::Chat, &client("me", 2000), MessageType::Chat, ""));
}

#[test]
fn connection_event_clones() {
    let e = ConnectionEvent::ExitGame(client("A", 4001));
    assert_eq!(left(ClientAction::Notify(e.clone())), client("A", 4001));
    let e = ConnectionEvent::EnterLobby(client("B", 4002));
    assert_eq!(entered(ClientAction::Notify(e.clone())), client("B", 4002));
}

#[test]
fn resources_hold_what_they_are_given() {
    let server = ServerInfoResource::new("10.0.0.1:7000".to_string());
    assert_eq!(server.addr, "10.0.0.1:7000");
    let me = ClientInfoResource::new("me".to_string());
    assert_eq!(me.name, "me");
    let bundle = ChatroomBundle::new(server, me);
    assert_eq!(bundle.server_info.addr, "10.0.0.1:7000");
    assert_eq!(bundle.client_info.name, "me");
}

#[test]
fn resources_default_to_the_local_server() {
    assert_eq!(SERVER_ADDRESS, "127.0.0.1:6666");
    assert_eq!(ServerInfoResource::default().addr, "127.0.0.1:6666");
    assert_eq!(ClientInfoResource::default().name, "test");
    let bundle = ChatroomBundle::default();
    assert_eq!(bundle.server_info.addr, "127.0.0.1:6666");
    assert_eq!(bundle.client_info.name, "test");
}

#[test]
fn user_cache_remembers_the_name() {
    let mut cache = UserCache::default();
    assert_eq!(cache.get_name(), "");
    cache.save_name("alice");
    assert_eq!(cache.get_name(), "alice");
    cache.save_name("bob");
    assert_eq!(cache.name, "bob");
}

#[test]
fn pos_appends_along_the_axes() {
    let p = Pos::new(3, -4);
    assert_eq!(p, Pos { x: 3, y: -4 });
    assert_eq!(p.append_x(5), Pos::new(8, -4));
    assert_eq!(p.append_x(-5), Pos::new(-2, -4));
    assert_eq!(p.append_y(4), Pos::new(3, 0));
    assert_eq!(p.append_xy(-3, 4), Pos::new(0, 0));
    assert_eq!(Pos::new(i32::MAX - 1, i32::MIN + 1).append_xy(1, -1), Pos::new(i32::MAX, i32::MIN));
    assert_eq!(Pos::default(), Pos::new(0, 0));
}

#[test]
fn pos_adds_and_subtracts() {
    assert_eq!(Pos::new(1, 2) + Pos::new(10, 20), Pos::new(11, 22));
    assert_eq!(Pos::new(1, 2) - Pos::new(10, 20), Pos::new(-9, -18));
    assert!(Pos::new(1, 9) < Pos::new(2, 0));
    assert!(Pos::new(1, 1) < Pos::new(1, 2));
}

#[test]
fn depth_layers_lie_at_their_depths() {
    let depths = [
        (DepthLayer::Background, 0u16),
        (DepthLayer::DebugLines, 1),
        (DepthLayer::Blocks, 100),
        (DepthLayer::Selection, 101),
        (DepthLayer::Cursor, 102),
        (DepthLayer::FloatingBlocks, 110),
        (DepthLayer::Enemies, 120),
        (DepthLayer::Player, 130),
        (DepthLayer::Particles, 140),
        (DepthLayer::UiElements, 200),
        (DepthLayer::Camera, 300),
    ];
    for (layer, depth) in depths {
        assert_eq!(layer.z_index(), depth);
        assert_eq!(layer.z_index() as f32, depth as f32);
    }
    assert_eq!(DepthLayer::default(), DepthLayer::Blocks);
}

#[test]
fn player_holds_what_it_is_given() {
    let p = Player::new("alice".to_string(), PlayerState::Chatting, true, CharacterType::Alice);
    assert_eq!(p.name, "alice");
    assert_eq!(p.state, PlayerState::Chatting);
    assert!(p.is_playing);
    assert_eq!(p.role, CharacterType::Alice);
    let q = p.clone();
    assert_eq!(q.name, "alice");
    assert_eq!(q.role, CharacterType::Alice);
    let d = Player::default();
    assert_eq!(d.name, "");
    assert_eq!(d.state, PlayerState::default());
    assert!(!d.is_playing);
    assert_eq!(d.role, CharacterType::NotFound);
}

#[test]
fn asset_kinds_have_their_defaults() {
    assert_eq!(Avatar::default(), Avatar::Default);
    assert_eq!(CharacterType::default(), CharacterType::NotFound);
    assert_eq!(PlayerState::default(), PlayerState::Chatting);
    assert_ne!(AssetType::Avatar(Avatar::Alice, 1), AssetType::Character(CharacterType::Alice, 1));
    assert_eq!(AssetType::Character(CharacterType::Cirno, 3), AssetType::Character(CharacterType::Cirno, 3));
    assert_ne!(SoundType::Confirm, SoundType::Boop);
}

#[test]
fn cards_compare_by_name_then_damage() {
    let card = |name: &str, damage| Card { name: name.to_string(), damage };
    assert_eq!(card("slash", 1), card("slash", 1));
    assert!(card("dodge", 9) < card("slash", 1));
    assert!(card("slash", 1) < card("slash", 2));
    let group = CardGroup { cards_num: 2, cards: vec![card("slash", 1), card("dodge", 0)] };
    assert_eq!(group.cards.len(), 2);
    assert_eq!(group.cards_num, 2);
    let kit = Equipment {
        weapon: card("spear", 3),
        armor: card("shield", 0),
        offend_horse: card("red hare", 0),
        defend_horse: card("shadow", 0),
    };
    assert_eq!(kit.weapon.damage, 3);
    assert_eq!(kit.defend_horse.name, "shadow");
}

#[test]
fn client_asks_to_enter_the_lobby() {
    let system = MessageSystem::new(client("me", 2000));
    let t = system.compose_enter_lobby();
    assert_eq!(t, envelope(MessageLayer::Connection, &client("me", 2000), MessageType::EnterLobby, "enter lobby"));
    assert_eq!(
        t.serialize().unwrap(),
        "{\"Connection\":{\"from\":{\"name\":\"me\",\"port\":2000},\"msg_type\":\"EnterLobby\",\"msg\":\"enter lobby\"}}"
    );
    let mut server = lobby_relay::service::ServiceSystem::new();
    let at = lobby_relay::address::Address::new(lobby_relay::address::IpAddress::V4(1), 50000);
    let out = server.handle_message(at, &t).unwrap();
    assert_eq!(out.len(), 1);
    assert_eq!(out[0].envelope, t);
    assert_eq!(server.players().get(at), Some(&client("me", 2000)));
}
