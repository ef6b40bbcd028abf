use proton::digest::{hash_matches, HashAccumulator};

#[test]
fn digest_of_empty_input() {
    let acc = HashAccumulator::new();
    assert_eq!(
        acc.finish(),
        Some("da39a3ee5e6b4b0d3255bfef95601890afd80709".to_string())
    );
}

#[test]
fn digest_of_abc() {
    let mut acc = HashAccumulator::new();
    acc.update(b"abc");
    assert_eq!(
        acc.finish(),
        Some("a9993e364706816aba3e25717850c26c9cd0d89d".to_string())
    );
}

#[test]
fn digest_of_chunks_is_digest_of_whole() {
    let mut chunked = HashAccumulator::new();
    chunked.update(b"hello");
    chunked.update(b"");
    chunked.update(b" ");
    chunked.update(b"world");
    let mut whole = HashAccumulator::new();
    whole.update(b"hello world");
    let expected = Some("2aae6c35c94fcfb415dbe95f408b9ce91ee846ed".to_string());
    assert_eq!(chunked.finish(), expected);
    assert_eq!(whole.finish(), expected);
}

#[test]
fn digest_is_forty_lower_case_hex_digits() {
    let mut acc = HashAccumulator::new();
    acc.update(&[0u8, 255, 16, 1]);
    let text = acc.finish().unwrap();
    assert_eq!(text, "86b47d62d1df5faef7c5f3650a89b32bf708ef1e");
    assert_eq!(text.len(), 40);
    assert!(text.chars().all(|c| c.is_ascii_digit() || ('a'..='f').contains(&c)));
}

#[test]
fn digest_spans_a_block_boundary() {
    // 64 bytes fill one block of the digest exactly; one more starts the next.
    let data = [b'a'; 65];
    let mut split = HashAccumulator::new();
    split.update(&data[..64]);
    split.update(&data[64..]);
    let mut whole = HashAccumulator::new();
    whole.update(&data);
    let left = split.finish().unwrap();
    assert_eq!(left, whole.finish().unwrap());
    assert_eq!(left, "11655326c708d70319be2610e8a57d9a5b959d3b");
}

#[test]
fn hash_comparison_is_exact() {
    assert!(hash_matches("a9993e36", "a9993e36"));
    assert!(!hash_matches("a9993e36", "A9993E36"));
    assert!(!hash_matches("a9993e36", "a9993e3"));
    assert!(!hash_matches("a9993e36", "a9993e37"));
    assert!(hash_matches("", ""));
}
