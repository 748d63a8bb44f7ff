use rkiwi::trampoline::ReaderSession;
use rkiwi::trampoline::reply_fill;
use rkiwi::trampoline::reply_fill_w;
use rkiwi::trampoline::reply_length;
use rkiwi::trampoline::reply_length_w;

#[test]
fn two_phase_byte_protocol_round_trips() {
    // Phase one: a null-buffer call answers the required length.
    let content: Vec<u8> = String::from("발음교정").into_bytes();
    let len = reply_length(&content);
    assert_eq!(len, content.len());
    // Phase two: a buffer of exactly that many units is filled with
    // byte-identical data and the same length is answered.
    let mut buffer: Vec<u8> = vec![0; len];
    let len2 = reply_fill(&content, &mut buffer);
    assert_eq!(len2, len);
    assert_eq!(buffer, content);
}

#[test]
fn two_phase_wide_protocol_round_trips() {
    let content: Vec<u16> = "발음교정".encode_utf16().collect();
    let len = reply_length_w(&content);
    assert_eq!(len, content.len());
    let mut buffer: Vec<u16> = vec![0; len];
    let len2 = reply_fill_w(&content, &mut buffer);
    assert_eq!(len2, len);
    assert_eq!(buffer, content);
}

#[test]
fn empty_callback_output_round_trips() {
    let content: Vec<u8> = Vec::new();
    assert_eq!(reply_length(&content), 0);
    let mut buffer: Vec<u8> = Vec::new();
    assert_eq!(reply_fill(&content, &mut buffer), 0);
    assert!(buffer.is_empty());
}

#[test]
fn fill_overwrites_stale_buffer_content() {
    let content: Vec<u8> = vec![7, 8, 9];
    let mut buffer: Vec<u8> = vec![0xAA, 0xBB, 0xCC];
    reply_fill(&content, &mut buffer);
    assert_eq!(buffer, vec![7, 8, 9]);
}

#[test]
fn reader_session_serves_ascending_indices_once_each() {
    let corpus = vec![
        String::from("첫 문장"),
        String::from("둘째 문장"),
        String::from("셋째 문장"),
    ];
    let mut session = ReaderSession::new(corpus);
    assert_eq!(session.read_at(0).unwrap(), "첫 문장");
    assert_eq!(session.read_at(1).unwrap(), "둘째 문장");
    assert_eq!(session.read_at(2).unwrap(), "셋째 문장");
    // Every index was served exactly once; the range is exhausted.
    assert!(session.read_at(3).is_none());
}

#[test]
fn reader_session_rejects_repeats_and_skips() {
    let corpus = vec![String::from("하나"), String::from("둘")];
    let mut session = ReaderSession::new(corpus);
    assert!(session.read_at(1).is_none());
    assert_eq!(session.read_at(0).unwrap(), "하나");
    assert!(session.read_at(0).is_none());
    assert_eq!(session.read_at(1).unwrap(), "둘");
    assert!(session.read_at(1).is_none());
}

#[test]
fn reader_session_over_empty_corpus_serves_nothing() {
    let mut session = ReaderSession::new(Vec::new());
    assert!(session.read_at(0).is_none());
}
