use socks5_core::fmt_num::{u16_dec, u16_hex};
use socks5_core::machine::{initial, step, Action, Event, State};
use socks5_core::reply::encode_reply;
use socks5_core::resolver::resolve_endpoint;

fn greeting_reply(methods: Vec<u8>) -> (State, Action) {
    let (state, action) = initial();
    match action {
        Action::Read(n) => assert_eq!(n, 2),
        _ => panic!("expected a read of the greeting"),
    }
    let n_methods = methods.len() as u8;
    let (state, action) = step(state, Event::Bytes(vec![5, n_methods]));
    match action {
        Action::Read(n) => assert_eq!(n as usize, methods.len()),
        _ => panic!("expected a read of the method list"),
    }
    assert_eq!(state, State::AwaitMethods { n_methods });
    step(state, Event::Bytes(methods))
}

#[test]
fn greeting_with_no_auth_is_answered_zero() {
    let (state, action) = greeting_reply(vec![0x02, 0x00, 0x01]);
    assert_eq!(state, State::AwaitRequestHeader);
    match action {
        Action::WriteThenRead(w, n) => {
            assert_eq!(w, vec![0x05, 0x00]);
            assert_eq!(n, 4);
        }
        _ => panic!("expected the method reply followed by the header read"),
    }
}

#[test]
fn greeting_without_no_auth_is_answered_ff_and_closed() {
    let (state, action) = greeting_reply(vec![0x01, 0x02]);
    assert_eq!(state, State::Done);
    match action {
        Action::WriteThenClose(w) => assert_eq!(w, vec![0x05, 0xFF]),
        _ => panic!("expected the rejection reply followed by a clean close"),
    }
}

#[test]
fn empty_method_list_is_answered_ff() {
    let (state, action) = greeting_reply(vec![]);
    assert_eq!(state, State::Done);
    match action {
        Action::WriteThenClose(w) => assert_eq!(w, vec![0x05, 0xFF]),
        _ => panic!("expected the rejection reply followed by a clean close"),
    }
}

#[test]
fn bad_greeting_version_fails_abruptly() {
    let (state, _) = initial();
    let (state, action) = step(state, Event::Bytes(vec![4, 1]));
    assert_eq!(state, State::Failed);
    assert!(matches!(action, Action::CloseAbrupt));
}

#[test]
fn bad_request_version_fails_abruptly() {
    let (state, _) = greeting_reply(vec![0x00]);
    let (state, action) = step(state, Event::Bytes(vec![4, 1, 0, 1]));
    assert_eq!(state, State::Failed);
    assert!(matches!(action, Action::CloseAbrupt));
}

#[test]
fn unsupported_command_is_refused_without_dialing() {
    let (state, _) = greeting_reply(vec![0x00]);
    let (state, action) = step(state, Event::Bytes(vec![5, 0x02, 0, 1]));
    assert_eq!(state, State::Done);
    match action {
        Action::WriteThenClose(w) => {
            assert_eq!(w, vec![5, 5, 0, 1, 0, 0, 0, 0, 0, 0]);
        }
        _ => panic!("expected the refused reply, not a dial"),
    }
}

#[test]
fn unsupported_address_type_is_refused() {
    let (state, _) = greeting_reply(vec![0x00]);
    let (state, action) = step(state, Event::Bytes(vec![5, 1, 0, 0x05]));
    assert_eq!(state, State::Done);
    match action {
        Action::WriteThenClose(w) => {
            assert_eq!(w, vec![5, 5, 0, 1, 0, 0, 0, 0, 0, 0]);
        }
        _ => panic!("expected the refused reply, not a dial"),
    }
}

#[test]
fn connect_ipv4_dials_the_decoded_endpoint() {
    let (state, _) = greeting_reply(vec![0x00]);
    let (state, action) = step(state, Event::Bytes(vec![5, 1, 0, 1]));
    assert_eq!(
        state,
        State::AwaitAddress { addr_type: 1, raw_len: 6 }
    );
    match action {
        Action::Read(n) => assert_eq!(n, 6),
        _ => panic!("expected a read of address and port"),
    }
    let (state, action) = step(state, Event::Bytes(vec![127, 0, 0, 1, 0, 9]));
    assert_eq!(state, State::Dialing);
    match action {
        Action::Dial(ep) => assert_eq!(ep, "127.0.0.1:9"),
        _ => panic!("expected a dial"),
    }
}

#[test]
fn connect_domain_reads_length_then_dials() {
    let (state, _) = greeting_reply(vec![0x00]);
    let (state, action) = step(state, Event::Bytes(vec![5, 1, 0, 3]));
    assert_eq!(state, State::AwaitDomainLen);
    match action {
        Action::Read(n) => assert_eq!(n, 1),
        _ => panic!("expected a read of the length prefix"),
    }
    let (state, action) = step(state, Event::Bytes(vec![11]));
    assert_eq!(
        state,
        State::AwaitAddress { addr_type: 3, raw_len: 13 }
    );
    match action {
        Action::Read(n) => assert_eq!(n, 13),
        _ => panic!("expected a read of name and port"),
    }
    let mut raw = b"example.com".to_vec();
    raw.push(0);
    raw.push(80);
    let (state, action) = step(state, Event::Bytes(raw));
    assert_eq!(state, State::Dialing);
    match action {
        Action::Dial(ep) => assert_eq!(ep, "example.com:80"),
        _ => panic!("expected a dial"),
    }
}

#[test]
fn dial_failure_is_refused_cleanly() {
    let (state, action) = step(State::Dialing, Event::Dialed(false));
    assert_eq!(state, State::Done);
    match action {
        Action::WriteThenClose(w) => {
            assert_eq!(w, vec![5, 5, 0, 1, 0, 0, 0, 0, 0, 0]);
        }
        _ => panic!("expected the refused reply"),
    }
}

#[test]
fn dial_success_replies_then_relays() {
    let (state, action) = step(State::Dialing, Event::Dialed(true));
    assert_eq!(state, State::Relaying);
    match action {
        Action::WriteThenRelay(w) => {
            assert_eq!(w, vec![5, 0, 0, 1, 0, 0, 0, 0, 0, 0]);
        }
        _ => panic!("expected the success reply followed by the relay"),
    }
    let (state, action) = step(state, Event::RelayFinished(true));
    assert_eq!(state, State::Done);
    assert!(matches!(action, Action::CloseClean));
}

#[test]
fn ipv4_endpoint_decodes_to_dotted_decimal() {
    let r = resolve_endpoint(1, &vec![127, 0, 0, 1, 0, 9]);
    assert_eq!(r.as_deref(), Some("127.0.0.1:9"));
}

#[test]
fn ipv4_endpoint_largest_values() {
    let r = resolve_endpoint(1, &vec![255, 255, 255, 255, 255, 255]);
    assert_eq!(r.as_deref(), Some("255.255.255.255:65535"));
}

#[test]
fn domain_endpoint_decodes_name_and_port() {
    let mut raw = b"example.com".to_vec();
    raw.push(0);
    raw.push(80);
    let r = resolve_endpoint(3, &raw);
    assert_eq!(r.as_deref(), Some("example.com:80"));
}

#[test]
fn empty_domain_decodes_to_bare_port() {
    let r = resolve_endpoint(3, &vec![0, 80]);
    assert_eq!(r.as_deref(), Some(":80"));
}

#[test]
fn invalid_utf8_domain_bytes_are_replaced() {
    let r = resolve_endpoint(3, &vec![0xFF, b'a', 0, 80]);
    assert_eq!(r.as_deref(), Some("\u{FFFD}a:80"));
}

#[test]
fn ipv6_endpoint_decodes_to_bracketed_groups() {
    let mut raw = vec![0u8; 16];
    raw.push(0);
    raw.push(80);
    let r = resolve_endpoint(4, &raw);
    assert_eq!(r.as_deref(), Some("[0:0:0:0:0:0:0:0]:80"));
}

#[test]
fn ipv6_endpoint_hex_groups_are_lowercase_without_padding() {
    let raw = vec![
        0x20, 0x01, 0x0d, 0xb8, 0x00, 0x00, 0x00, 0x01, 0xde, 0xad, 0xbe, 0xef, 0x00, 0x0f, 0xff,
        0xff, 0x01, 0xbb,
    ];
    let r = resolve_endpoint(4, &raw);
    assert_eq!(r.as_deref(), Some("[2001:db8:0:1:dead:beef:f:ffff]:443"));
}

#[test]
fn unsupported_tag_resolves_to_none() {
    assert_eq!(resolve_endpoint(2, &vec![1, 2, 3, 4, 0, 80]), None);
    assert_eq!(resolve_endpoint(0, &vec![]), None);
}

#[test]
fn wrong_byte_count_resolves_to_none() {
    assert_eq!(resolve_endpoint(1, &vec![127, 0, 0, 1, 0]), None);
    assert_eq!(resolve_endpoint(4, &vec![0; 17]), None);
    assert_eq!(resolve_endpoint(3, &vec![80]), None);
}

#[test]
fn reply_frames_are_ten_fixed_bytes() {
    assert_eq!(encode_reply(0), vec![5, 0, 0, 1, 0, 0, 0, 0, 0, 0]);
    assert_eq!(encode_reply(5), vec![5, 5, 0, 1, 0, 0, 0, 0, 0, 0]);
}

#[test]
fn decimal_rendering_exact_values() {
    assert_eq!(u16_dec(0), "0");
    assert_eq!(u16_dec(9), "9");
    assert_eq!(u16_dec(80), "80");
    assert_eq!(u16_dec(65535), "65535");
}

#[test]
fn hex_rendering_exact_values() {
    assert_eq!(u16_hex(0), "0");
    assert_eq!(u16_hex(0x000f), "f");
    assert_eq!(u16_hex(0xbeef), "beef");
    assert_eq!(u16_hex(0xffff), "ffff");
}
