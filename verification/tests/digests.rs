use file_intake::clock::timestamp_from;
use file_intake::digest::content_digest;

#[test]
fn digest_of_abc() {
    assert_eq!(
        content_digest(b"abc"),
        "6437b3ac38465133ffb63b75273a8db548c558465d79db03fd359c6cd5bd9d85"
    );
}

#[test]
fn digest_of_nothing() {
    assert_eq!(
        content_digest(b""),
        "af1349b9f5f9a1a6a0404dea36dcc9499bcb25c9adc112b7cc9a93cae41f3262"
    );
}

#[test]
fn digest_is_that_of_blake3() {
    let bytes: Vec<u8> = (0..5000u32).map(|i| (i % 251) as u8).collect();
    assert_eq!(content_digest(&bytes), blake3::hash(&bytes).to_hex().to_string());
}

#[test]
fn digest_is_64_lower_case_hex_digits() {
    let hex = content_digest(b"some bytes");
    assert_eq!(hex.len(), 64);
    assert!(hex.chars().all(|c| c.is_ascii_digit() || ('a'..='f').contains(&c)));
}

#[test]
fn digest_tells_bytes_apart() {
    assert_ne!(content_digest(b"abc"), content_digest(b"abd"));
    assert_eq!(content_digest(b"abc"), content_digest(b"abc"));
}

#[test]
fn timestamp_of_a_reading_that_fits() {
    assert_eq!(timestamp_from(Some(0)), 0);
    assert_eq!(timestamp_from(Some(1_700_000_000_123)), 1_700_000_000_123);
    assert_eq!(timestamp_from(Some(u64::MAX as u128)), u64::MAX);
}

#[test]
fn timestamp_of_a_reading_that_does_not_fit() {
    assert_eq!(timestamp_from(Some(u64::MAX as u128 + 1)), u64::MAX);
    assert_eq!(timestamp_from(Some(u128::MAX)), u64::MAX);
}

#[test]
fn timestamp_of_a_clock_before_the_epoch() {
    assert_eq!(timestamp_from(None), 0);
}
