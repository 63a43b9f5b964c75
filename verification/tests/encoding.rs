use bhp::encoding::{encode_chunk, CHUNK_SIZE};

#[test]
fn chunk_size_is_three() {
    assert_eq!(CHUNK_SIZE, 3);
}

#[test]
fn encode_chunk_follows_the_table() {
    assert_eq!(encode_chunk(false, false, false), 1);
    assert_eq!(encode_chunk(true, false, false), 2);
    assert_eq!(encode_chunk(false, true, false), 3);
    assert_eq!(encode_chunk(true, true, false), 4);
    assert_eq!(encode_chunk(false, false, true), -1);
    assert_eq!(encode_chunk(true, false, true), -2);
    assert_eq!(encode_chunk(false, true, true), -3);
    assert_eq!(encode_chunk(true, true, true), -4);
}

#[test]
fn encode_chunk_is_injective_and_never_zero() {
    let mut seen = Vec::new();
    for pattern in 0..8u8 {
        let value = encode_chunk(pattern & 1 != 0, pattern & 2 != 0, pattern & 4 != 0);
        assert_ne!(value, 0);
        assert!(-4 <= value && value <= 4);
        assert!(!seen.contains(&value));
        seen.push(value);
    }
    assert_eq!(seen.len(), 8);
}
