//! Tests for the byte-framing protocol: chunking, the inverse reassembler,
//! and inbound frame validation.

use ledger_lib::framing::{chunk_payload, parse_continuation_frame, parse_first_frame, unchunk_frames};
use ledger_lib::Error;

#[test]
fn single_chunk_fits_default_mtu() {
    let payload: Vec<u8> = vec![0xAA, 0xBB];
    let frames = chunk_payload(0x05, &payload, 23);
    assert_eq!(frames.len(), 1);
    assert_eq!(frames[0], vec![0x05, 0x00, 0x00, 0x00, 0x02, 0xAA, 0xBB]);
}

#[test]
fn empty_payload_still_sends_length_prefix() {
    let payload: Vec<u8> = vec![];
    let frames = chunk_payload(0x05, &payload, 23);
    assert_eq!(frames.len(), 1);
    assert_eq!(frames[0], vec![0x05, 0x00, 0x00, 0x00, 0x00]);
}

#[test]
fn chunking_splits_with_sequence_numbers() {
    // MTU 5 leaves 2 payload bytes per frame; body is 2 + 5 = 7 bytes,
    // so ceil(7 / 2) = 4 frames.
    let payload: Vec<u8> = vec![1, 2, 3, 4, 5];
    let frames = chunk_payload(0x05, &payload, 5);
    assert_eq!(frames.len(), 4);
    assert_eq!(frames[0], vec![0x05, 0x00, 0x00, 0x00, 0x05]);
    assert_eq!(frames[1], vec![0x03, 0x00, 0x01, 1, 2]);
    assert_eq!(frames[2], vec![0x03, 0x00, 0x02, 3, 4]);
    assert_eq!(frames[3], vec![0x03, 0x00, 0x03, 5]);
}

#[test]
fn chunk_then_unchunk_restores_body() {
    let sizes: Vec<usize> = vec![0, 1, 2, 19, 20, 21, 64, 255, 300];
    let mtus: Vec<u8> = vec![4, 5, 23, 247];
    for ml in 0..mtus.len() {
        for sl in 0..sizes.len() {
            let mtu = mtus[ml];
            let n = sizes[sl];
            let mut payload: Vec<u8> = Vec::new();
            for i in 0..n {
                payload.push((i % 251) as u8);
            }
            let frames = chunk_payload(0x05, &payload, mtu);
            let chunk_size = (mtu - 3) as usize;
            let expected_frames = (n + 2 + chunk_size - 1) / chunk_size;
            assert_eq!(frames.len(), expected_frames);
            for (i, f) in frames.iter().enumerate() {
                assert_eq!(f[0], if i == 0 { 0x05 } else { 0x03 });
                assert_eq!(f[1], (i / 256) as u8);
                assert_eq!(f[2], (i % 256) as u8);
                assert!(f.len() <= mtu as usize);
            }
            let body = unchunk_frames(&frames);
            assert_eq!(body.len(), n + 2);
            assert_eq!(body[0], (n / 256) as u8);
            assert_eq!(body[1], (n % 256) as u8);
            assert_eq!(&body[2..], &payload[..]);
        }
    }
}

#[test]
fn first_frame_too_short_is_unexpected() {
    let frame: Vec<u8> = vec![0x05, 0x00, 0x00, 0x00];
    assert_eq!(parse_first_frame(&frame), Err(Error::UnexpectedResponse));
}

#[test]
fn first_frame_wrong_tag_is_unexpected() {
    let frame: Vec<u8> = vec![0x01, 0x00, 0x00, 0x00, 0x02];
    assert_eq!(parse_first_frame(&frame), Err(Error::UnexpectedResponse));
}

#[test]
fn first_frame_zero_length_is_empty() {
    let frame: Vec<u8> = vec![0x05, 0x00, 0x00, 0x00, 0x00];
    assert_eq!(parse_first_frame(&frame), Err(Error::EmptyResponse));
}

#[test]
fn first_frame_yields_declared_length_and_payload() {
    let frame: Vec<u8> = vec![0x05, 0x00, 0x00, 0x00, 0x02, 0xCC, 0xDD];
    assert_eq!(parse_first_frame(&frame), Ok((2, vec![0xCC, 0xDD])));
}

#[test]
fn continuation_frames_contribute_past_header() {
    let frame: Vec<u8> = vec![9, 9, 9, 9, 9, 0xBB, 0xCC];
    assert_eq!(parse_continuation_frame(&frame), vec![0xBB, 0xCC]);
    let short: Vec<u8> = vec![1, 2, 3];
    assert_eq!(parse_continuation_frame(&short), Vec::<u8>::new());
    let exact: Vec<u8> = vec![1, 2, 3, 4, 5];
    assert_eq!(parse_continuation_frame(&exact), Vec::<u8>::new());
}
