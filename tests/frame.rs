use tfrecord::error::Error;
use tfrecord::frame::{
    check_frame_body, checksum_matches, mask, masked_crc, read_frame_length, read_le,
};
use tfrecord::scan::{FrameScanner, FrameSpan};

fn frame(payload: &[u8]) -> Vec<u8> {
    let len = (payload.len() as u64).to_le_bytes();
    let mut out = len.to_vec();
    out.extend_from_slice(&masked_crc(&len).to_le_bytes());
    out.extend_from_slice(payload);
    out.extend_from_slice(&masked_crc(payload).to_le_bytes());
    out
}

#[test]
fn masked_crc_of_check_string() {
    assert_eq!(masked_crc(b"123456789"), 0xc78a_b0e5);
}

#[test]
fn masked_crc_of_nothing() {
    assert_eq!(masked_crc(b""), 0xa282_ead8);
    assert_eq!(mask(0), 0xa282_ead8);
}

#[test]
fn mask_rotates_then_adds() {
    assert_eq!(mask(1), 0x0002_0000u32.wrapping_add(0xa282_ead8));
    assert_eq!(mask(0x8000), 1u32.wrapping_add(0xa282_ead8));
}

#[test]
fn little_endian_values() {
    let bytes = [0x01u8, 0x02, 0x03, 0x04, 0x05, 0x06, 0x07, 0x08];
    assert_eq!(read_le(&bytes, 0, 8), 0x0807_0605_0403_0201);
    assert_eq!(read_le(&bytes, 2, 2), 0x0403);
    assert_eq!(read_le(&bytes, 3, 0), 0);
    assert_eq!(read_le(&[0xff; 8], 0, 8), u64::MAX);
}

#[test]
fn header_of_well_formed_frame() {
    let f = frame(b"hello");
    assert_eq!(read_frame_length(&f[..12], true), Ok(Some(5)));
    assert_eq!(read_frame_length(&f[..12], false), Ok(Some(5)));
}

#[test]
fn empty_header_is_clean_end() {
    assert_eq!(read_frame_length(&[], true), Ok(None));
    assert_eq!(read_frame_length(&[], false), Ok(None));
}

#[test]
fn truncated_header_is_corruption() {
    let f = frame(b"hello");
    assert!(matches!(read_frame_length(&f[..7], false), Err(Error::Corruption(_))));
    assert!(matches!(read_frame_length(&f[..11], true), Err(Error::Corruption(_))));
}

#[test]
fn header_checksum_mismatch() {
    let mut f = frame(b"hello");
    f[9] ^= 0x40;
    assert!(matches!(read_frame_length(&f[..12], true), Err(Error::Corruption(_))));
    assert_eq!(read_frame_length(&f[..12], false), Ok(Some(5)));
}

#[test]
fn body_checks() {
    let f = frame(b"hello");
    assert_eq!(check_frame_body(&f[12..], 5, true), Ok(()));
    assert!(matches!(check_frame_body(&f[12..20], 5, false), Err(Error::Corruption(_))));
    let mut bad = f.clone();
    bad[13] = b'a';
    assert!(matches!(check_frame_body(&bad[12..], 5, true), Err(Error::Corruption(_))));
    assert_eq!(check_frame_body(&bad[12..], 5, false), Ok(()));
}

fn scan(bytes: &[u8], check: bool) -> Result<Vec<FrameSpan>, Error> {
    let mut scanner = FrameScanner::new(check);
    let mut pos = 0usize;
    loop {
        let end = usize::min(pos + 12, bytes.len());
        match scanner.on_header(&bytes[pos..end])? {
            None => return Ok(scanner.into_spans()),
            Some(n) => {
                pos = end;
                let end = usize::min(pos + n as usize, bytes.len());
                scanner.on_body(&bytes[pos..end])?;
                pos = end;
            }
        }
    }
}

#[test]
fn scan_finds_frames_in_order() {
    let mut file = frame(b"first");
    file.extend(frame(b""));
    file.extend(frame(b"third record"));
    let spans = scan(&file, true).unwrap();
    assert_eq!(
        spans,
        vec![
            FrameSpan { offset: 12, len: 5 },
            FrameSpan { offset: 33, len: 0 },
            FrameSpan { offset: 49, len: 12 },
        ]
    );
}

#[test]
fn scan_of_empty_file() {
    assert_eq!(scan(&[], true), Ok(vec![]));
}

#[test]
fn scan_of_truncated_payload() {
    let mut file = frame(b"first");
    file.extend(frame(b"second"));
    file.truncate(file.len() - 3);
    assert!(matches!(scan(&file, false), Err(Error::Corruption(_))));
}

#[test]
fn corrupted_payload_fails_only_when_checked() {
    let mut file = frame(b"first");
    file.extend(frame(b"second"));
    let at = file.len() - 6;
    file[at] ^= 0x01;
    assert!(matches!(scan(&file, true), Err(Error::Corruption(_))));
    let spans = scan(&file, false).unwrap();
    assert_eq!(spans.len(), 2);
}

#[test]
fn oversized_length_is_corruption() {
    let len = u64::MAX.to_le_bytes();
    let mut header = len.to_vec();
    header.extend_from_slice(&masked_crc(&len).to_le_bytes());
    let mut scanner = FrameScanner::new(true);
    assert!(matches!(scanner.on_header(&header), Err(Error::Corruption(_))));
}

#[test]
fn stored_checksums() {
    assert!(checksum_matches(&0xa282_ead8u32.to_le_bytes(), 0));
    assert!(!checksum_matches(&0xa282_ead9u32.to_le_bytes(), 0));
    assert!(checksum_matches(&[0xd8, 0xea, 0x82, 0xa2], 0));
}
