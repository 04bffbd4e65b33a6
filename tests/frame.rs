use remotro::frame::{decode_frame, encode_frame, split_frame, ProtocolError};

#[test]
fn encode_puts_separator_between_kind_and_body() {
    assert_eq!(encode_frame("shop/info", "{\"a\":1}"), "shop/info!{\"a\":1}");
}

#[test]
fn decode_of_encode_gives_body_back() {
    let line = encode_frame("play/hand", "{\"x\":[1,2]}");
    assert_eq!(decode_frame(&line, "play/hand").ok(), Some("{\"x\":[1,2]}".to_string()));
    match split_frame(&line) {
        Ok((k, b)) => {
            assert_eq!(k, "play/hand");
            assert_eq!(b, "{\"x\":[1,2]}");
        }
        Err(_) => panic!("frame did not split"),
    }
}

#[test]
fn decode_rejects_other_kind() {
    match decode_frame("shop/info!{}", "play/hand") {
        Err(ProtocolError::KindMismatch { expected, found }) => {
            assert_eq!(expected, "play/hand");
            assert_eq!(found, "shop/info");
        }
        _ => panic!("kind mismatch not reported"),
    }
}

#[test]
fn decode_rejects_line_without_separator() {
    assert!(matches!(decode_frame("shop/info", "shop/info"), Err(ProtocolError::MissingSeparator)));
    assert!(matches!(decode_frame("", "shop/info"), Err(ProtocolError::MissingSeparator)));
}

#[test]
fn decode_rejects_line_with_two_separators() {
    assert!(matches!(decode_frame("shop/info!{}!", "shop/info"), Err(ProtocolError::ExtraSeparator)));
    assert!(matches!(split_frame("a!!b"), Err(ProtocolError::ExtraSeparator)));
}

#[test]
fn empty_kind_and_body_split() {
    match split_frame("!") {
        Ok((k, b)) => {
            assert_eq!(k, "");
            assert_eq!(b, "");
        }
        Err(_) => panic!("bare separator did not split"),
    }
}

#[test]
fn protocol_error_messages() {
    let e = ProtocolError::KindMismatch { expected: "a".to_string(), found: "b".to_string() };
    assert_eq!(e.message(), "expected response kind a, got b");
    assert_eq!(ProtocolError::MissingSeparator.message(), "frame has no '!' separator");
}
