use macrdp::zgfx::{unwrap_zgfx, wrap_zgfx, zgfx_unwrap_would_fault};

#[test]
fn single_segment_framing() {
    assert_eq!(wrap_zgfx(&[1, 2, 3]), vec![0xE0, 0x04, 1, 2, 3]);
    assert_eq!(wrap_zgfx(&[]), vec![0xE0, 0x04]);
}

#[test]
fn multipart_framing() {
    let data: Vec<u8> = (0..65535u32).map(|i| (i % 251) as u8).collect();
    let out = wrap_zgfx(&data);
    assert_eq!(out[0], 0xE1);
    assert_eq!(&out[1..3], &2u16.to_le_bytes());
    assert_eq!(&out[3..7], &65535u32.to_le_bytes());
    assert_eq!(&out[7..11], &65535u32.to_le_bytes());
    assert_eq!(out[11], 0x04);
    assert_eq!(&out[12..12 + 65534], &data[..65534]);
    let tail = 12 + 65534;
    assert_eq!(&out[tail..tail + 4], &2u32.to_le_bytes());
    assert_eq!(out[tail + 4], 0x04);
    assert_eq!(out[tail + 5], data[65534]);
    assert_eq!(out.len(), 7 + 2 * 5 + 65535);
}

#[test]
fn roundtrip() {
    for len in [1usize, 2, 100, 65534, 65535, 200_000] {
        let data: Vec<u8> = (0..len).map(|i| (i * 7 % 256) as u8).collect();
        let wrapped = wrap_zgfx(&data);
        assert!(!zgfx_unwrap_would_fault(&wrapped));
        assert_eq!(unwrap_zgfx(&wrapped), Some(data));
    }
}

#[test]
fn empty_payload_does_not_roundtrip() {
    // A single segment needs at least one payload byte to be recognised.
    assert_eq!(unwrap_zgfx(&wrap_zgfx(&[])), None);
}

#[test]
fn unwrap_rejects_other_data() {
    assert_eq!(unwrap_zgfx(&[]), None);
    assert_eq!(unwrap_zgfx(&[0x12, 0, 0]), None);
    assert_eq!(unwrap_zgfx(&[0xE0, 0x05, 1]), None);
    assert_eq!(unwrap_zgfx(&[0xE1, 0, 0, 0]), None);
}

#[test]
fn unwrap_multipart_stops_at_truncation() {
    // Two segments announced; the first claims 10 bytes but only 3 remain.
    let data = vec![0xE1, 2, 0, 0, 0, 0, 0, 10, 0, 0, 0, 0x04, 7, 8, 9];
    assert!(!zgfx_unwrap_would_fault(&data));
    assert_eq!(unwrap_zgfx(&data), Some(vec![7, 8, 9]));
    // A compressed segment ends the walk.
    let data = vec![0xE1, 1, 0, 0, 0, 0, 0, 2, 0, 0, 0, 0x21, 7];
    assert_eq!(unwrap_zgfx(&data), Some(vec![]));
}

#[test]
fn zero_sized_segment_is_detected() {
    let data = vec![0xE1, 1, 0, 0, 0, 0, 0, 0, 0, 0, 0, 0x04, 1];
    assert!(zgfx_unwrap_would_fault(&data));
    assert_eq!(unwrap_zgfx(&data), None);
}
