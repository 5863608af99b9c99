use workxgoam::wav::{encode_wav, wav_header, WavError};

fn le32_at(b: &[u8], at: usize) -> u32 {
    u32::from_le_bytes([b[at], b[at + 1], b[at + 2], b[at + 3]])
}

fn le16_at(b: &[u8], at: usize) -> u16 {
    u16::from_le_bytes([b[at], b[at + 1]])
}

#[test]
fn header_layout_is_byte_exact() {
    let h = wav_header(8, 2, 44100, 32).unwrap();
    let mut expected: Vec<u8> = Vec::new();
    expected.extend_from_slice(b"RIFF");
    expected.extend_from_slice(&44u32.to_le_bytes());
    expected.extend_from_slice(b"WAVE");
    expected.extend_from_slice(b"fmt ");
    expected.extend_from_slice(&16u32.to_le_bytes());
    expected.extend_from_slice(&3u16.to_le_bytes());
    expected.extend_from_slice(&2u16.to_le_bytes());
    expected.extend_from_slice(&44100u32.to_le_bytes());
    expected.extend_from_slice(&352800u32.to_le_bytes());
    expected.extend_from_slice(&8u16.to_le_bytes());
    expected.extend_from_slice(&32u16.to_le_bytes());
    expected.extend_from_slice(b"data");
    expected.extend_from_slice(&8u32.to_le_bytes());
    assert_eq!(h, expected);
}

#[test]
fn stereo_float_header_fields_for_several_lengths() {
    for len in [0usize, 1, 7, 8, 1000, 352800] {
        let samples = vec![0xABu8; len];
        let w = encode_wav(&samples, 2, 44100, 32).unwrap();
        assert_eq!(w.len(), 44 + len);
        assert_eq!(le32_at(&w, 4), 36 + len as u32);
        assert_eq!(le32_at(&w, 28), 44100 * 2 * 32 / 8);
        assert_eq!(le16_at(&w, 32), 8);
        assert_eq!(le32_at(&w, 40), len as u32);
        assert_eq!(&w[44..], &samples[..]);
    }
}

#[test]
fn samples_are_copied_verbatim() {
    let samples: Vec<u8> = (0..=255u8).collect();
    let w = encode_wav(&samples, 1, 8000, 8).unwrap();
    assert_eq!(&w[44..], &samples[..]);
    assert_eq!(le32_at(&w, 28), 8000);
    assert_eq!(le16_at(&w, 32), 1);
    assert_eq!(le16_at(&w, 20), 3);
}

#[test]
fn odd_length_is_not_validated() {
    let w = encode_wav(&[1, 2, 3], 2, 44100, 32).unwrap();
    assert_eq!(le32_at(&w, 40), 3);
    assert_eq!(le32_at(&w, 4), 39);
}

#[test]
fn byte_rate_that_overflows_is_refused() {
    assert_eq!(wav_header(0, 65535, u32::MAX, 65535), Err(WavError::FormatOutOfRange));
    assert_eq!(encode_wav(&[], 8, 4_000_000_000, 32), Err(WavError::FormatOutOfRange));
}

#[test]
fn block_align_that_overflows_is_refused() {
    assert_eq!(wav_header(0, 65535, 1, 65535), Err(WavError::FormatOutOfRange));
}

#[test]
fn data_length_at_the_limit() {
    let h = wav_header(u32::MAX - 36, 2, 44100, 32).unwrap();
    assert_eq!(le32_at(&h, 4), u32::MAX);
    assert_eq!(wav_header(u32::MAX - 35, 2, 44100, 32), Err(WavError::DataTooLong));
    assert_eq!(wav_header(u32::MAX, 65535, u32::MAX, 65535), Err(WavError::FormatOutOfRange));
}
