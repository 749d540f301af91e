use lobby_relay::address::{Address, IpAddress};
use lobby_relay::clientinfo::ClientInfo;
use lobby_relay::msg::{MessageError, MessageLayer, MessageType, TransMessage};
use lobby_relay::service::{
    broadcast_to_all, broadcast_to_others_of, send_message, ConnectionState, NetworkEvent, Outbound,
    RelayError, ServiceSystem,
};
use lobby_relay::session::SessionTable;

fn addr(host: u32, port: u16) -> Address {
    Address::new(IpAddress::V4(host), port)
}

fn client(name: &str, port: u16) -> ClientInfo {
    ClientInfo::new(name.to_string(), port)
}

fn enter(c: &ClientInfo) -> TransMessage {
    TransMessage::new(MessageLayer::Connection, c.clone(), MessageType::EnterLobby, "enter lobby".to_string())
}

fn exit(c: &ClientInfo) -> TransMessage {
    TransMessage::new(MessageLayer::Connection, c.clone(), MessageType::ExitLobby, "exit game".to_string())
}

fn chat(c: &ClientInfo, text: &str) -> TransMessage {
    TransMessage::new(MessageLayer::Chat, c.clone(), MessageType::Chat, text.to_string())
}

fn to(peer: Address, target_port: u16, envelope: TransMessage) -> (Address, Address, TransMessage) {
    (peer, Address::new(peer.ip, target_port), envelope)
}

fn plain(out: Vec<Outbound>) -> Vec<(Address, Address, TransMessage)> {
    out.into_iter().map(|o| (o.peer, o.target, o.envelope)).collect()
}

fn sent_to(out: &[(Address, Address, TransMessage)], peer: Address) -> usize {
    out.iter().filter(|o| o.0 == peer).count()
}

fn keys(system: &ServiceSystem) -> Vec<Address> {
    system.players().all().iter().map(|s| s.addr).collect()
}

fn a_addr() -> Address {
    addr(0x0a000001, 51001)
}

fn b_addr() -> Address {
    addr(0x0a000002, 51002)
}

fn c_addr() -> Address {
    addr(0x0a000003, 51003)
}

fn lobby_of_two() -> ServiceSystem {
    let mut system = ServiceSystem::new();
    system.connect(a_addr());
    system.connect(b_addr());
    system.handle_message(a_addr(), &enter(&client("A", 4001))).unwrap();
    system.handle_message(b_addr(), &enter(&client("B", 4002))).unwrap();
    system
}

#[test]
fn first_client_enters_an_empty_lobby() {
    let mut system = ServiceSystem::new();
    let a = client("A", 4001);
    let out = plain(system.handle_message(a_addr(), &enter(&a)).unwrap());
    assert_eq!(out, vec![to(a_addr(), 4001, enter(&a))]);
    assert_eq!(keys(&system), vec![a_addr()]);
    assert_eq!(system.players().get(a_addr()), Some(&a));
}

#[test]
fn second_client_enters_the_lobby() {
    let mut system = ServiceSystem::new();
    let a = client("A", 4001);
    let b = client("B", 4002);
    system.handle_message(a_addr(), &enter(&a)).unwrap();
    let out = plain(system.handle_message(b_addr(), &enter(&b)).unwrap());
    assert_eq!(
        out,
        vec![
            to(a_addr(), 4001, enter(&b)),
            to(b_addr(), 4002, enter(&a)),
            to(b_addr(), 4002, enter(&b)),
        ]
    );
    assert_eq!(sent_to(&out, a_addr()), 1);
    assert_eq!(sent_to(&out, b_addr()), 2);
    assert_eq!(keys(&system), vec![a_addr(), b_addr()]);
    assert_eq!(system.players().get(a_addr()), Some(&a));
    assert_eq!(system.players().get(b_addr()), Some(&b));
}

#[test]
fn a_disconnect_tells_the_one_who_stays() {
    let mut system = lobby_of_two();
    let out = plain(system.disconnect(a_addr()));
    assert_eq!(out, vec![to(b_addr(), 4002, exit(&client("A", 4001)))]);
    assert_eq!(keys(&system), vec![b_addr()]);
    assert_eq!(system.connection(), &vec![b_addr()]);
    assert_eq!(system.online_num(), 1);
}

#[test]
fn chat_goes_to_every_session() {
    let mut system = lobby_of_two();
    system.handle_message(c_addr(), &enter(&client("C", 4003))).unwrap();
    let said = chat(&client("B", 4002), "hello all");
    let out = plain(system.handle_message(b_addr(), &said).unwrap());
    assert_eq!(
        out,
        vec![
            to(a_addr(), 4001, said.clone()),
            to(b_addr(), 4002, said.clone()),
            to(c_addr(), 4003, said.clone()),
        ]
    );
    assert_eq!(keys(&system), vec![a_addr(), b_addr(), c_addr()]);
}

#[test]
fn chat_is_forwarded_with_the_sender_it_names() {
    let mut system = lobby_of_two();
    let said = chat(&client("someone else", 1), "hi");
    let out = plain(system.handle_message(a_addr(), &said).unwrap());
    assert_eq!(out.len(), 2);
    for o in out {
        assert_eq!(o.2.message().from, client("someone else", 1));
        assert_eq!(o.2.message().msg, "hi");
        assert_eq!(o.2.message().msg_type, MessageType::Chat);
        assert_eq!(o.2.layer(), MessageLayer::Chat);
    }
}

#[test]
fn newcomer_is_told_of_everyone() {
    let mut system = ServiceSystem::new();
    let hosts: Vec<(Address, ClientInfo)> =
        (0..5u16).map(|i| (addr(100 + i as u32, 6000 + i), client(&format!("p{}", i), 4000 + i))).collect();
    for (at, who) in hosts.iter() {
        system.handle_message(*at, &enter(who)).unwrap();
    }
    let newcomer = client("new", 4999);
    let out = plain(system.handle_message(c_addr(), &enter(&newcomer)).unwrap());
    assert_eq!(out.len(), 5 + 5 + 1);
    assert_eq!(sent_to(&out, c_addr()), 6);
    for (i, (at, who)) in hosts.iter().enumerate() {
        assert_eq!(sent_to(&out, *at), 1);
        assert_eq!(out[i], to(*at, who.port, enter(&newcomer)));
        assert_eq!(out[5 + i], to(c_addr(), 4999, enter(who)));
    }
    assert_eq!(out[10], to(c_addr(), 4999, enter(&newcomer)));
    assert!(out.iter().all(|o| o.2.message().msg_type == MessageType::EnterLobby));
    assert_eq!(system.players().len(), 6);
}

#[test]
fn entering_again_repeats_the_round() {
    let mut system = lobby_of_two();
    let b = client("B", 4002);
    let out = plain(system.handle_message(b_addr(), &enter(&b)).unwrap());
    assert_eq!(
        out,
        vec![
            to(a_addr(), 4001, enter(&b)),
            to(b_addr(), 4002, enter(&client("A", 4001))),
            to(b_addr(), 4002, enter(&b)),
            to(b_addr(), 4002, enter(&b)),
        ]
    );
    assert_eq!(keys(&system), vec![a_addr(), b_addr()]);
}

#[test]
fn entering_again_may_change_the_identity() {
    let mut system = lobby_of_two();
    let renamed = client("B2", 4500);
    let out = plain(system.handle_message(b_addr(), &enter(&renamed)).unwrap());
    assert_eq!(
        out,
        vec![
            to(a_addr(), 4001, enter(&renamed)),
            to(b_addr(), 4500, enter(&client("A", 4001))),
            to(b_addr(), 4500, enter(&client("B", 4002))),
            to(b_addr(), 4500, enter(&renamed)),
        ]
    );
    assert_eq!(system.players().get(b_addr()), Some(&renamed));
    assert_eq!(system.players().len(), 2);
}

#[test]
fn after_a_disconnect_nothing_is_sent_there() {
    let mut system = lobby_of_two();
    system.handle_message(c_addr(), &enter(&client("C", 4003))).unwrap();
    system.disconnect(a_addr());
    assert!(!system.players().contains(a_addr()));
    assert!(system.players().all().iter().all(|s| s.addr != a_addr()));
    let said = chat(&client("C", 4003), "still here");
    let out = plain(system.handle_message(c_addr(), &said).unwrap());
    assert_eq!(out, vec![to(b_addr(), 4002, said.clone()), to(c_addr(), 4003, said.clone())]);
    assert_eq!(sent_to(&out, a_addr()), 0);
    let out = plain(system.handle_message(a_addr(), &enter(&client("A", 4001))).unwrap());
    assert_eq!(sent_to(&out, a_addr()), 3);
}

#[test]
fn exit_message_leaves_the_lobby_but_not_the_roster() {
    let mut system = lobby_of_two();
    let out = plain(system.handle_message(a_addr(), &exit(&client("ignored", 1))).unwrap());
    assert_eq!(out, vec![to(b_addr(), 4002, exit(&client("A", 4001)))]);
    assert_eq!(keys(&system), vec![b_addr()]);
    assert_eq!(system.connection(), &vec![a_addr(), b_addr()]);
}

#[test]
fn last_one_out_tells_nobody() {
    let mut system = ServiceSystem::new();
    system.connect(a_addr());
    system.handle_message(a_addr(), &enter(&client("A", 4001))).unwrap();
    assert!(system.disconnect(a_addr()).is_empty());
    assert!(system.players().is_empty());
    assert_eq!(system.online_num(), 0);
}

#[test]
fn disconnect_of_an_unregistered_address_tells_nobody() {
    let mut system = lobby_of_two();
    system.connect(c_addr());
    assert_eq!(system.online_num(), 3);
    assert!(system.disconnect(c_addr()).is_empty());
    assert_eq!(system.online_num(), 2);
    assert_eq!(keys(&system), vec![a_addr(), b_addr()]);
    assert!(system.disconnect(addr(77, 77)).is_empty());
    assert_eq!(system.connection(), &vec![a_addr(), b_addr()]);
}

#[test]
fn roster_loses_one_entry_per_disconnect() {
    let mut system = ServiceSystem::new();
    system.connect(a_addr());
    system.connect(b_addr());
    system.connect(a_addr());
    assert_eq!(system.connection(), &vec![a_addr(), b_addr(), a_addr()]);
    system.disconnect(a_addr());
    assert_eq!(system.connection(), &vec![b_addr(), a_addr()]);
    system.disconnect(a_addr());
    assert_eq!(system.connection(), &vec![b_addr()]);
}

#[test]
fn chat_before_entering_is_dropped() {
    let mut system = lobby_of_two();
    let outcome = system.handle_message(c_addr(), &chat(&client("C", 4003), "hi"));
    assert_eq!(outcome.unwrap_err(), RelayError::Unregistered);
    let outcome = system.handle_message(c_addr(), &exit(&client("C", 4003)));
    assert_eq!(outcome.unwrap_err(), RelayError::Unregistered);
    assert_eq!(keys(&system), vec![a_addr(), b_addr()]);
}

#[test]
fn reserved_layers_are_unsupported() {
    let mut system = lobby_of_two();
    for layer in [MessageLayer::System, MessageLayer::Lobby, MessageLayer::Game] {
        for msg_type in [MessageType::EnterLobby, MessageType::Chat, MessageType::Prepare] {
            let t = TransMessage::new(layer, client("A", 4001), msg_type, "x".to_string());
            assert_eq!(system.handle_message(a_addr(), &t).unwrap_err(), RelayError::Unsupported(layer));
        }
    }
    assert_eq!(keys(&system), vec![a_addr(), b_addr()]);
}

#[test]
fn a_type_of_another_layer_is_inconsistent() {
    let mut system = lobby_of_two();
    for msg_type in [MessageType::Prepare, MessageType::CancelPrepare, MessageType::Chat] {
        let t = TransMessage::new(MessageLayer::Connection, client("A", 4001), msg_type, "x".to_string());
        assert_eq!(system.handle_message(a_addr(), &t).unwrap_err(), RelayError::Inconsistent);
    }
    for msg_type in [MessageType::EnterLobby, MessageType::ExitLobby, MessageType::Prepare, MessageType::CancelPrepare] {
        let t = TransMessage::new(MessageLayer::Chat, client("A", 4001), msg_type, "x".to_string());
        assert_eq!(system.handle_message(a_addr(), &t).unwrap_err(), RelayError::Inconsistent);
        assert_eq!(system.handle_message(c_addr(), &t).unwrap_err(), RelayError::Inconsistent);
    }
    assert_eq!(keys(&system), vec![a_addr(), b_addr()]);
}

#[test]
fn events_drive_the_lobby() {
    let mut system = ServiceSystem::new();
    let a = client("A", 4001);
    let b = client("B", 4002);
    assert!(system.handle_event(&NetworkEvent::Connect(a_addr())).unwrap().is_empty());
    assert_eq!(system.online_num(), 1);
    assert!(system.players().is_empty());
    let payload = enter(&a).serialize().unwrap().into_bytes();
    let out = plain(system.handle_event(&NetworkEvent::Message(a_addr(), payload)).unwrap());
    assert_eq!(out, vec![to(a_addr(), 4001, enter(&a))]);
    system.handle_event(&NetworkEvent::Connect(b_addr())).unwrap();
    let payload = enter(&b).serialize().unwrap().into_bytes();
    let out = plain(system.handle_event(&NetworkEvent::Message(b_addr(), payload)).unwrap());
    assert_eq!(out.len(), 3);
    let payload = chat(&b, "hi").serialize().unwrap().into_bytes();
    let out = plain(system.handle_event(&NetworkEvent::Message(b_addr(), payload)).unwrap());
    assert_eq!(out, vec![to(a_addr(), 4001, chat(&b, "hi")), to(b_addr(), 4002, chat(&b, "hi"))]);
    assert!(system.handle_event(&NetworkEvent::RecvError("reset".to_string())).unwrap().is_empty());
    assert_eq!(keys(&system), vec![a_addr(), b_addr()]);
    let out = plain(system.handle_event(&NetworkEvent::Disconnect(a_addr())).unwrap());
    assert_eq!(out, vec![to(b_addr(), 4002, exit(&a))]);
    assert_eq!(keys(&system), vec![b_addr()]);
    assert_eq!(system.connection(), &vec![b_addr()]);
}

#[test]
fn a_payload_that_is_no_envelope_is_dropped() {
    let mut system = lobby_of_two();
    let outcome = system.handle_event(&NetworkEvent::Message(a_addr(), b"Y".to_vec()));
    assert_eq!(outcome.unwrap_err(), RelayError::Malformed(MessageError::SerdeJsonError));
    let outcome = system.handle_event(&NetworkEvent::Message(a_addr(), b"{\"Chat\":{}}".to_vec()));
    assert_eq!(outcome.unwrap_err(), RelayError::Malformed(MessageError::FromBytesError));
    assert_eq!(keys(&system), vec![a_addr(), b_addr()]);
    assert_eq!(system.online_num(), 2);
}

#[test]
fn run_answers_each_event_in_turn() {
    let mut system = ServiceSystem::new();
    let a = client("A", 4001);
    let b = client("B", 4002);
    let events = vec![
        NetworkEvent::Connect(a_addr()),
        NetworkEvent::Message(a_addr(), enter(&a).serialize().unwrap().into_bytes()),
        NetworkEvent::Message(b_addr(), chat(&b, "early").serialize().unwrap().into_bytes()),
        NetworkEvent::Connect(b_addr()),
        NetworkEvent::Message(b_addr(), enter(&b).serialize().unwrap().into_bytes()),
        NetworkEvent::Message(b_addr(), b"not json".to_vec()),
        NetworkEvent::Disconnect(a_addr()),
    ];
    let outcomes = system.run(&events);
    assert_eq!(outcomes.len(), 7);
    let mut outcomes = outcomes.into_iter();
    assert!(outcomes.next().unwrap().unwrap().is_empty());
    assert_eq!(plain(outcomes.next().unwrap().unwrap()), vec![to(a_addr(), 4001, enter(&a))]);
    assert_eq!(outcomes.next().unwrap().unwrap_err(), RelayError::Unregistered);
    assert!(outcomes.next().unwrap().unwrap().is_empty());
    assert_eq!(plain(outcomes.next().unwrap().unwrap()).len(), 3);
    assert_eq!(outcomes.next().unwrap().unwrap_err(), RelayError::Malformed(MessageError::SerdeJsonError));
    assert_eq!(plain(outcomes.next().unwrap().unwrap()), vec![to(b_addr(), 4002, exit(&a))]);
    assert_eq!(keys(&system), vec![b_addr()]);
    assert!(ServiceSystem::default().run(&Vec::new()).is_empty());
}

#[test]
fn pieces_of_the_entry_round() {
    let system = lobby_of_two();
    let newcomer = client("C", 4003);
    assert_eq!(
        plain(system.broadcast_to_others(&c_addr(), &newcomer)),
        vec![to(a_addr(), 4001, enter(&newcomer)), to(b_addr(), 4002, enter(&newcomer))]
    );
    assert_eq!(
        plain(system.broadcast_to_others(&a_addr(), &newcomer)),
        vec![to(b_addr(), 4002, enter(&newcomer))]
    );
    assert_eq!(
        plain(system.sync_remaining_players(&c_addr(), &newcomer)),
        vec![to(c_addr(), 4003, enter(&client("A", 4001))), to(c_addr(), 4003, enter(&client("B", 4002)))]
    );
    assert_eq!(
        plain(vec![system.load_player_himself(&c_addr(), &newcomer)]),
        vec![to(c_addr(), 4003, enter(&newcomer))]
    );
    assert_eq!(system.players().len(), 2);
}

#[test]
fn add_players_registers() {
    let mut system = ServiceSystem::new();
    system.add_players(a_addr(), client("A", 4001));
    system.add_players(a_addr(), client("A", 4001));
    assert_eq!(keys(&system), vec![a_addr()]);
    assert_eq!(system.online_num(), 0);
}

#[test]
fn send_message_targets_the_announced_port() {
    let envelope = chat(&client("A", 4001), "x");
    let out = send_message(&addr(5, 50000), &client("B", 4002), &envelope);
    assert_eq!(out.peer, addr(5, 50000));
    assert_eq!(out.target, addr(5, 4002));
    assert_eq!(out.envelope, envelope);
    assert!(out.payload().is_ok());
    assert_eq!(out.payload(), envelope.serialize());
    assert_eq!(
        out.payload().unwrap(),
        "{\"Chat\":{\"from\":{\"name\":\"A\",\"port\":4001},\"msg_type\":\"Chat\",\"msg\":\"x\"}}"
    );
}

#[test]
fn broadcasts_over_a_table() {
    let mut table = SessionTable::new();
    let envelope = chat(&client("A", 4001), "x");
    assert!(broadcast_to_all(&table, &envelope).is_empty());
    table.register(a_addr(), client("A", 4001));
    table.register(b_addr(), client("B", 4002));
    assert_eq!(
        plain(broadcast_to_all(&table, &envelope)),
        vec![to(a_addr(), 4001, envelope.clone()), to(b_addr(), 4002, envelope.clone())]
    );
    assert_eq!(
        plain(broadcast_to_others_of(&table, &b_addr(), &envelope)),
        vec![to(a_addr(), 4001, envelope.clone())]
    );
    assert_eq!(plain(broadcast_to_others_of(&table, &c_addr(), &envelope)).len(), 2);
}

#[test]
fn a_connection_is_accepted_then_active_then_closed() {
    let mut system = ServiceSystem::new();
    assert_eq!(system.connection_state(a_addr()), ConnectionState::Closed);
    system.connect(a_addr());
    assert_eq!(system.connection_state(a_addr()), ConnectionState::Accepted);
    assert_eq!(system.connection_state(b_addr()), ConnectionState::Closed);
    system.handle_message(a_addr(), &enter(&client("A", 4001))).unwrap();
    assert_eq!(system.connection_state(a_addr()), ConnectionState::Active);
    system.handle_message(a_addr(), &exit(&client("A", 4001))).unwrap();
    assert_eq!(system.connection_state(a_addr()), ConnectionState::Accepted);
    system.handle_message(a_addr(), &enter(&client("A", 4001))).unwrap();
    system.disconnect(a_addr());
    assert_eq!(system.connection_state(a_addr()), ConnectionState::Closed);
    assert!(system.players().is_empty());
    assert!(system.connection().is_empty());
}
