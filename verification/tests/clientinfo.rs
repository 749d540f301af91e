use lobby_relay::clientinfo::{order_texts, ClientInfo, CLIENT_NAME, UDP_PORT};
use std::cmp::Ordering;
use lobby_relay::text::{chars_of, push_decimal, read_port, text_between};

#[test]
fn client_text_shows_name_and_port() {
    assert_eq!(ClientInfo::new("alice".to_string(), 4001).to_string(), "alice:4001");
    assert_eq!(ClientInfo::new("".to_string(), 0).to_string(), ":0");
    assert_eq!(ClientInfo::new("a:b".to_string(), 65535).to_string(), "a:b:65535");
}

#[test]
fn client_default_is_test_on_2000() {
    assert_eq!(CLIENT_NAME, "test");
    assert_eq!(UDP_PORT, 2000);
    assert_eq!(ClientInfo::default(), ClientInfo::new("test".to_string(), 2000));
}

#[test]
fn client_from_text_reads_name_and_port() {
    assert_eq!(ClientInfo::from("Client:9999".to_string()), ClientInfo::new("Client".to_string(), 9999));
    assert_eq!(ClientInfo::from(":1".to_string()), ClientInfo::new("".to_string(), 1));
    assert_eq!(ClientInfo::from("a:+80".to_string()), ClientInfo::new("a".to_string(), 80));
    assert_eq!(ClientInfo::from("a:0080".to_string()), ClientInfo::new("a".to_string(), 80));
    assert_eq!(ClientInfo::from("a:65535".to_string()), ClientInfo::new("a".to_string(), 65535));
}

#[test]
fn client_from_text_reads_a_bad_port_as_zero() {
    for text in ["a:", "a:x", "a:65536", "a:99999999999", "a:-1", "a: 1", "a:1 ", "a:+", "a:1x", "a:１"] {
        assert_eq!(ClientInfo::from(text.to_string()), ClientInfo::new("a".to_string(), 0), "{}", text);
    }
}

#[test]
fn client_from_text_ignores_later_fields() {
    assert_eq!(ClientInfo::from("a:12:34".to_string()), ClientInfo::new("a".to_string(), 12));
    assert_eq!(ClientInfo::from("a::34".to_string()), ClientInfo::new("a".to_string(), 0));
}

#[test]
fn client_can_read_needs_a_colon() {
    assert!(ClientInfo::can_read("a:1"));
    assert!(ClientInfo::can_read(":"));
    assert!(!ClientInfo::can_read("a"));
    assert!(!ClientInfo::can_read(""));
    assert!(!ClientInfo::can_read("a：1"));
}

#[test]
fn client_reads_back_from_its_text() {
    for (name, port) in [("alice", 4001u16), ("", 0), ("né", 65535), ("x y", 10)] {
        let c = ClientInfo::new(name.to_string(), port);
        assert!(ClientInfo::can_read(&c.to_string()));
        assert_eq!(ClientInfo::from(c.to_string()), c);
    }
}

#[test]
fn clients_compare_by_name_and_port() {
    let a = ClientInfo::new("A".to_string(), 4001);
    assert_eq!(a, a.clone());
    assert_ne!(a, ClientInfo::new("A".to_string(), 4002));
    assert_ne!(a, ClientInfo::new("B".to_string(), 4001));
    assert!(a < ClientInfo::new("A".to_string(), 4002));
    assert!(a < ClientInfo::new("B".to_string(), 1));
}

#[test]
fn decimal_text_of_ports() {
    for (n, text) in [(0u16, "0"), (7, "7"), (10, "10"), (99, "99"), (100, "100"), (2000, "2000"), (65535, "65535")] {
        let mut s = String::from("p=");
        push_decimal(&mut s, n);
        assert_eq!(s, format!("p={}", text));
    }
}

#[test]
fn read_port_reads_digits_between_bounds() {
    let v = chars_of("ab+123:65536x007");
    assert_eq!(read_port(&v, 2, 6), Some(123));
    assert_eq!(read_port(&v, 3, 6), Some(123));
    assert_eq!(read_port(&v, 2, 3), None);
    assert_eq!(read_port(&v, 3, 3), None);
    assert_eq!(read_port(&v, 7, 12), None);
    assert_eq!(read_port(&v, 7, 11), Some(6553));
    assert_eq!(read_port(&v, 13, 16), Some(7));
    assert_eq!(read_port(&v, 0, 6), None);
    assert_eq!(read_port(&v, 5, 7), None);
}

#[test]
fn chars_and_text_between() {
    let v = chars_of("héllo");
    assert_eq!(v, vec!['h', 'é', 'l', 'l', 'o']);
    assert_eq!(text_between("héllo", 1, 4), "éll");
    assert_eq!(text_between("héllo", 0, 5), "héllo");
    assert_eq!(text_between("héllo", 2, 2), "");
    assert_eq!(text_between("", 0, 0), "");
}

#[test]
fn texts_are_ordered_by_their_first_difference() {
    assert_eq!(order_texts("", ""), Ordering::Equal);
    assert_eq!(order_texts("", "a"), Ordering::Less);
    assert_eq!(order_texts("a", ""), Ordering::Greater);
    assert_eq!(order_texts("abc", "abd"), Ordering::Less);
    assert_eq!(order_texts("abd", "abc"), Ordering::Greater);
    assert_eq!(order_texts("ab", "abc"), Ordering::Less);
    assert_eq!(order_texts("abc", "ab"), Ordering::Greater);
    assert_eq!(order_texts("abc", "abc"), Ordering::Equal);
    assert_eq!(order_texts("Z", "a"), Ordering::Less);
    let texts = ["", "a", "ab", "b", "B", "é", "e", "z", "\u{7f}", "\u{80}", "\u{7ff}", "\u{800}", "\u{ffff}", "\u{10000}", "日本", "日本語", "a\u{10ffff}", "a\u{0}"];
    for a in texts {
        for b in texts {
            assert_eq!(order_texts(a, b), a.cmp(b), "{:?} {:?}", a, b);
        }
    }
}

#[test]
fn clients_are_ordered_by_name_then_port() {
    let names = ["", "A", "AB", "B", "a", "é", "日本", "\u{10000}"];
    let ports = [0u16, 1, 4001, 65535];
    let mut all = Vec::new();
    for name in names {
        for port in ports {
            all.push(ClientInfo::new(name.to_string(), port));
        }
    }
    for a in all.iter() {
        for b in all.iter() {
            let expected = (a.name.as_str(), a.port).cmp(&(b.name.as_str(), b.port));
            assert_eq!(a.partial_cmp(b), Some(expected));
            assert_eq!(a.cmp(b), expected);
            assert_eq!(a < b, expected == Ordering::Less);
            assert_eq!(a == b, expected == Ordering::Equal);
        }
    }
    let mut sorted = vec![ClientInfo::new("b".to_string(), 1), ClientInfo::new("a".to_string(), 2), ClientInfo::new("a".to_string(), 1)];
    sorted.sort();
    assert_eq!(
        sorted,
        vec![ClientInfo::new("a".to_string(), 1), ClientInfo::new("a".to_string(), 2), ClientInfo::new("b".to_string(), 1)]
    );
}
