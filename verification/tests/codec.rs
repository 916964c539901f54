use peerlink::codec::decode;
use peerlink::codec::encode;
use peerlink::codec::is_blank_text;
use peerlink::codec::CodecError;
use peerlink::codec::DescriptionRole;
use peerlink::codec::SessionDescription;

#[test]
fn decode_empty_fails_with_empty_input() {
    let text: Vec<u8> = Vec::new();
    assert_eq!(decode(&text), Err(CodecError::EmptyInput));
}

#[test]
fn decode_whitespace_only_fails_with_empty_input() {
    let text = b" \t\r\n  \n".to_vec();
    assert_eq!(decode(&text), Err(CodecError::EmptyInput));
}

#[test]
fn decode_without_role_line_fails_with_malformed_input() {
    let text = b"no role line here".to_vec();
    assert_eq!(decode(&text), Err(CodecError::MalformedInput));
}

#[test]
fn decode_truncated_role_line_fails_with_malformed_input() {
    let text = b"offer".to_vec();
    assert_eq!(decode(&text), Err(CodecError::MalformedInput));
}

#[test]
fn encode_offer_is_role_line_then_payload() {
    let d = SessionDescription { role: DescriptionRole::Offer, payload: b"v=0 candidates".to_vec() };
    assert_eq!(encode(&d), b"offer\nv=0 candidates".to_vec());
}

#[test]
fn encode_answer_is_role_line_then_payload() {
    let d = SessionDescription { role: DescriptionRole::Answer, payload: b"v=0".to_vec() };
    assert_eq!(encode(&d), b"answer\nv=0".to_vec());
}

#[test]
fn decode_offer_text_parses_role_and_payload() {
    let text = b"offer\nv=0 candidates".to_vec();
    let d = decode(&text).unwrap();
    assert_eq!(d.role, DescriptionRole::Offer);
    assert_eq!(d.payload, b"v=0 candidates".to_vec());
}

#[test]
fn decode_answer_text_parses_role_and_payload() {
    let text = b"answer\nv=0".to_vec();
    let d = decode(&text).unwrap();
    assert_eq!(d.role, DescriptionRole::Answer);
    assert_eq!(d.payload, b"v=0".to_vec());
}

#[test]
fn decode_accepts_empty_payload() {
    let text = b"offer\n".to_vec();
    let d = decode(&text).unwrap();
    assert_eq!(d.role, DescriptionRole::Offer);
    assert!(d.payload.is_empty());
}

#[test]
fn encode_after_decode_returns_the_text_unchanged() {
    for text in [
        b"offer\n".to_vec(),
        b"offer\nv=0 some opaque payload".to_vec(),
        b"answer\nwith\nmore\nlines".to_vec(),
        b"answer\n  padded  ".to_vec(),
    ] {
        let d = decode(&text).unwrap();
        assert_eq!(encode(&d), text);
    }
}

#[test]
fn decode_after_encode_returns_the_description_unchanged() {
    for d in [
        SessionDescription { role: DescriptionRole::Offer, payload: Vec::new() },
        SessionDescription { role: DescriptionRole::Offer, payload: b"payload".to_vec() },
        SessionDescription { role: DescriptionRole::Answer, payload: b"answer body".to_vec() },
    ] {
        assert_eq!(decode(&encode(&d)).unwrap(), d);
    }
}

#[test]
fn blank_check_accepts_only_whitespace() {
    assert!(is_blank_text(&Vec::new()));
    assert!(is_blank_text(&b"   \t\n\r".to_vec()));
    assert!(!is_blank_text(&b" x ".to_vec()));
}
