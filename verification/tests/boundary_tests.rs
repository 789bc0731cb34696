use semantic_search::{
    decode_text, encode_text, free_cstring, matches_to_cstring, BoundaryError, HandleLedger,
    Release,
};

#[test]
fn null_handle_is_rejected() {
    assert_eq!(decode_text(None), Err(BoundaryError::NullHandle));
}

#[test]
fn bytes_that_are_not_utf8_are_rejected() {
    assert_eq!(
        decode_text(Some(vec![0x68, 0x69, 0xff])),
        Err(BoundaryError::InvalidEncoding)
    );
    assert_eq!(
        decode_text(Some(vec![0xc3])),
        Err(BoundaryError::InvalidEncoding)
    );
    assert_eq!(
        decode_text(Some(vec![0xc0, 0x80])),
        Err(BoundaryError::InvalidEncoding)
    );
    assert_eq!(
        decode_text(Some(vec![0xed, 0xa0, 0x80])),
        Err(BoundaryError::InvalidEncoding)
    );
}

#[test]
fn utf8_bytes_become_their_text() {
    assert_eq!(
        decode_text(Some(b"hello world".to_vec())),
        Ok(String::from("hello world"))
    );
    assert_eq!(decode_text(Some(Vec::new())), Ok(String::new()));
    assert_eq!(
        decode_text(Some(vec![0x67, 0x72, 0xc3, 0xbc, 0xc3, 0x9f, 0x65])),
        Ok(String::from("gr\u{fc}\u{df}e"))
    );
    assert_eq!(
        decode_text(Some(vec![0xe2, 0x82, 0xac, 0xf0, 0x9f, 0x98, 0x80])),
        Ok(String::from("\u{20ac}\u{1f600}"))
    );
}

#[test]
fn text_leaves_with_a_terminator() {
    assert_eq!(encode_text("abc"), Some(vec![0x61, 0x62, 0x63, 0x00]));
    assert_eq!(encode_text(""), Some(vec![0x00]));
    assert_eq!(
        encode_text("\u{20ac}"),
        Some(vec![0xe2, 0x82, 0xac, 0x00])
    );
}

#[test]
fn text_with_a_zero_byte_cannot_leave() {
    assert_eq!(encode_text("a\0b"), None);
    assert_eq!(encode_text("\0"), None);
    assert_eq!(encode_text("abc\0"), None);
}

#[test]
fn what_leaves_comes_back() {
    for text in ["", "hello", "embeddings:\u{27e8}abc\u{27e9}", "\u{1f600} ok"] {
        let mut buffer = encode_text(text).unwrap();
        assert_eq!(buffer.pop(), Some(0));
        assert!(!buffer.contains(&0));
        assert_eq!(decode_text(Some(buffer)), Ok(String::from(text)));
    }
}

#[test]
fn serialised_results_leave_with_a_terminator() {
    let mut entry = serde_json::Map::new();
    entry.insert(
        String::from("id"),
        serde_json::Value::String(String::from("a\"b")),
    );
    entry.insert(
        String::from("similarity_score"),
        serde_json::Value::Number(serde_json::Number::from_f64(0.5).unwrap()),
    );
    let json = serde_json::to_string(&serde_json::Value::Array(vec![
        serde_json::Value::Object(entry),
    ]))
    .unwrap();
    assert_eq!(json, "[{\"id\":\"a\\\"b\",\"similarity_score\":0.5}]");
    let mut expected = json.clone().into_bytes();
    expected.push(0);
    assert_eq!(matches_to_cstring(Some(json)), Some(expected));
    assert_eq!(
        matches_to_cstring(Some(String::from("[]"))),
        Some(vec![0x5b, 0x5d, 0x00])
    );
}

#[test]
fn results_that_were_not_serialised_give_no_buffer() {
    assert_eq!(matches_to_cstring(None), None);
    assert_eq!(matches_to_cstring(Some(String::from("[\0]"))), None);
}

#[test]
fn new_ledger_has_nothing_out() {
    let ledger = HandleLedger::new();
    assert_eq!(ledger.outstanding(), 0);
    assert!(!ledger.is_outstanding(0x1000));
    assert!(!ledger.is_outstanding(0));
}

#[test]
fn lent_buffer_is_out_until_released() {
    let mut ledger = HandleLedger::new();
    assert!(ledger.lend(0x1000));
    assert!(ledger.lend(0x2000));
    assert_eq!(ledger.outstanding(), 2);
    assert!(ledger.is_outstanding(0x1000));
    assert_eq!(free_cstring(&mut ledger, 0x1000), Release::Free);
    assert!(!ledger.is_outstanding(0x1000));
    assert!(ledger.is_outstanding(0x2000));
    assert_eq!(ledger.outstanding(), 1);
    assert_eq!(free_cstring(&mut ledger, 0x2000), Release::Free);
    assert_eq!(ledger.outstanding(), 0);
}

#[test]
fn releasing_twice_frees_once() {
    let mut ledger = HandleLedger::new();
    assert!(ledger.lend(0x1000));
    assert_eq!(free_cstring(&mut ledger, 0x1000), Release::Free);
    assert_eq!(free_cstring(&mut ledger, 0x1000), Release::Unknown);
    assert_eq!(free_cstring(&mut ledger, 0x1000), Release::Unknown);
    assert_eq!(ledger.outstanding(), 0);
}

#[test]
fn releasing_null_does_nothing() {
    let mut ledger = HandleLedger::new();
    assert_eq!(free_cstring(&mut ledger, 0), Release::Nothing);
    assert!(ledger.lend(0x1000));
    assert_eq!(free_cstring(&mut ledger, 0), Release::Nothing);
    assert_eq!(ledger.outstanding(), 1);
    assert!(ledger.is_outstanding(0x1000));
}

#[test]
fn releasing_what_never_was_lent_frees_nothing() {
    let mut ledger = HandleLedger::new();
    assert!(ledger.lend(0x1000));
    assert_eq!(free_cstring(&mut ledger, 0x3000), Release::Unknown);
    assert_eq!(ledger.outstanding(), 1);
}

#[test]
fn null_and_repeated_handles_are_not_recorded() {
    let mut ledger = HandleLedger::new();
    assert!(!ledger.lend(0));
    assert_eq!(ledger.outstanding(), 0);
    assert!(ledger.lend(0x1000));
    assert!(!ledger.lend(0x1000));
    assert_eq!(ledger.outstanding(), 1);
    assert_eq!(free_cstring(&mut ledger, 0x1000), Release::Free);
    assert!(ledger.lend(0x1000));
    assert_eq!(ledger.outstanding(), 1);
}

#[test]
fn every_buffer_that_left_is_released_once() {
    let mut ledger = HandleLedger::new();
    let handles: Vec<usize> = (1..=64usize).map(|i| i * 0x40).collect();
    for handle in &handles {
        assert!(ledger.lend(*handle));
    }
    assert_eq!(ledger.outstanding(), 64);
    for handle in handles.iter().rev() {
        assert_eq!(free_cstring(&mut ledger, *handle), Release::Free);
    }
    assert_eq!(ledger.outstanding(), 0);
    for handle in &handles {
        assert_eq!(free_cstring(&mut ledger, *handle), Release::Unknown);
    }
}

#[test]
fn release_leaves_other_buffers_out() {
    let mut ledger = HandleLedger::new();
    assert!(ledger.lend(0x1000));
    assert!(ledger.lend(0x2000));
    assert!(ledger.lend(0x3000));
    assert_eq!(free_cstring(&mut ledger, 0x2000), Release::Free);
    assert!(ledger.is_outstanding(0x1000));
    assert!(!ledger.is_outstanding(0x2000));
    assert!(ledger.is_outstanding(0x3000));
    assert_eq!(free_cstring(&mut ledger, 0x4000), Release::Unknown);
    assert_eq!(ledger.outstanding(), 2);
}
