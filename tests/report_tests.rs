use ws_control::report::{describe_frame, label_of, peer_label, render_hex, text_report, FrameReport, Opcode};

#[test]
fn valid_text_frame_is_decoded() {
    match describe_frame(Opcode::Text, "hello world!".as_bytes()) {
        FrameReport::Text(t) => assert_eq!(t, "hello world!"),
        other => panic!("unexpected report {:?}", other),
    }
}

#[test]
fn multibyte_text_frame_is_decoded() {
    let bytes = "héllo €".as_bytes();
    match describe_frame(Opcode::Text, bytes) {
        FrameReport::Text(t) => assert_eq!(t, "héllo €"),
        other => panic!("unexpected report {:?}", other),
    }
}

#[test]
fn invalid_text_frame_reports_failure_not_partial_text() {
    let bytes = [b'a', b'b', 0xFF, b'c'];
    match describe_frame(Opcode::Text, &bytes) {
        FrameReport::InvalidUtf8(n) => assert_eq!(n, 4),
        other => panic!("unexpected report {:?}", other),
    }
}

#[test]
fn truncated_sequence_is_invalid() {
    let bytes = [0xE2, 0x82];
    match describe_frame(Opcode::Text, &bytes) {
        FrameReport::InvalidUtf8(n) => assert_eq!(n, 2),
        other => panic!("unexpected report {:?}", other),
    }
}

#[test]
fn empty_text_frame_is_empty_text() {
    match describe_frame(Opcode::Text, &[]) {
        FrameReport::Text(t) => assert_eq!(t, ""),
        other => panic!("unexpected report {:?}", other),
    }
}

#[test]
fn binary_frame_is_rendered_in_hex() {
    let bytes = [0x00, 0x0F, 0xAB, 0xFF];
    match describe_frame(Opcode::Binary, &bytes) {
        FrameReport::Raw { opcode, len, hex } => {
            assert_eq!(opcode, Opcode::Binary);
            assert_eq!(len, 4);
            assert_eq!(hex, "00 0F AB FF ");
        }
        other => panic!("unexpected report {:?}", other),
    }
}

#[test]
fn empty_binary_frame_has_zero_length() {
    match describe_frame(Opcode::Ping, &[]) {
        FrameReport::Raw { opcode, len, hex } => {
            assert_eq!(opcode, Opcode::Ping);
            assert_eq!(len, 0);
            assert_eq!(hex, "");
        }
        other => panic!("unexpected report {:?}", other),
    }
}

#[test]
fn binary_frame_with_text_content_is_still_hex() {
    match describe_frame(Opcode::Binary, b"hi") {
        FrameReport::Raw { len, hex, .. } => {
            assert_eq!(len, 2);
            assert_eq!(hex, "68 69 ");
        }
        other => panic!("unexpected report {:?}", other),
    }
}

#[test]
fn hex_rendering_covers_every_byte_value() {
    let all: Vec<u8> = (0..=255u8).collect();
    let hex = render_hex(&all);
    assert_eq!(hex.len(), 3 * 256);
    let expected: String = all.iter().map(|b| format!("{:02X} ", b)).collect();
    assert_eq!(hex, expected);
}

#[test]
fn text_report_from_decoding() {
    match text_report(5, Some("abc".to_string())) {
        FrameReport::Text(t) => assert_eq!(t, "abc"),
        other => panic!("unexpected report {:?}", other),
    }
    match text_report(5, None) {
        FrameReport::InvalidUtf8(n) => assert_eq!(n, 5),
        other => panic!("unexpected report {:?}", other),
    }
}

#[test]
fn opcode_codes_round_trip() {
    for c in 0..20u32 {
        assert_eq!(Opcode::from_code(c).code(), c);
    }
    assert_eq!(Opcode::from_code(1), Opcode::Text);
    assert_eq!(Opcode::from_code(2), Opcode::Binary);
    assert_eq!(Opcode::from_code(8), Opcode::Close);
    assert_eq!(Opcode::from_code(9), Opcode::Ping);
    assert_eq!(Opcode::from_code(10), Opcode::Pong);
    assert_eq!(Opcode::from_code(3), Opcode::Other(3));
}

#[test]
fn peer_labels() {
    assert_eq!(peer_label(None), "<null>");
    assert_eq!(peer_label(Some(b"127.0.0.1:4433")), "127.0.0.1:4433");
    assert_eq!(peer_label(Some(&[0xC3, 0x28])), "<utf8 err>");
    assert_eq!(label_of(None), "<utf8 err>");
    assert_eq!(label_of(Some("x".to_string())), "x");
}
