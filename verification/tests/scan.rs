use pn532::frame::encode;
use pn532::scan::find_verdict;
use pn532::scan::scan_ack;
use pn532::scan::scan_frame;
use pn532::scan::ScanState;
use pn532::scan::SNAPSHOT_LEN;
use pn532::Error;

/// A snapshot that starts with `head` and goes on with `fill`.
fn snapshot(head: &[u8], fill: u8) -> [u8; SNAPSHOT_LEN] {
    let mut buf = [fill; SNAPSHOT_LEN];
    buf[..head.len()].copy_from_slice(head);
    buf
}

#[test]
fn automaton_transitions() {
    assert_eq!(ScanState::Idle.next(0x00), ScanState::SawPreamble);
    assert_eq!(ScanState::Idle.next(0xFF), ScanState::Idle);
    assert_eq!(ScanState::Idle.next(0x01), ScanState::Idle);
    assert_eq!(ScanState::SawPreamble.next(0x00), ScanState::SawPreamble);
    assert_eq!(ScanState::SawPreamble.next(0xFF), ScanState::SawStart);
    assert_eq!(ScanState::SawPreamble.next(0x7F), ScanState::Idle);
    for byte in 0..=255u8 {
        assert_eq!(ScanState::SawStart.next(byte), ScanState::Idle);
        if byte != 0x00 {
            assert_eq!(ScanState::Idle.next(byte), ScanState::Idle);
        }
        if byte != 0x00 && byte != 0xFF {
            assert_eq!(ScanState::SawPreamble.next(byte), ScanState::Idle);
        }
    }
}

#[test]
fn find_verdict_positions() {
    assert_eq!(find_verdict(&[]), 0);
    assert_eq!(find_verdict(&[0x00, 0xFF]), 2);
    assert_eq!(find_verdict(&[0x00, 0xFF, 0x12]), 2);
    assert_eq!(find_verdict(&[0x00, 0x00, 0xFF, 0x00]), 3);
    assert_eq!(find_verdict(&[0x01, 0x00, 0x00, 0xFF, 0x00, 0xFF, 0x00]), 4);
    assert_eq!(find_verdict(&[0xFF, 0x00, 0x01, 0xFF, 0x00]), 5);
    assert_eq!(find_verdict(&[0x00, 0xFF, 0x00, 0xFF, 0x00]), 2);
}

#[test]
fn ack_then_noise_is_success() {
    let buf = snapshot(&[0x00, 0x00, 0xFF, 0x00, 0x13, 0x37, 0xFF, 0x00, 0xFF, 0xFF], 0xA5);
    assert_eq!(scan_ack(&buf), Some(Ok(())));
    assert_eq!(scan_ack(&[0x00, 0x00, 0xFF, 0x00]), Some(Ok(())));
}

#[test]
fn ack_behind_stray_bytes_is_success() {
    assert_eq!(scan_ack(&[0x01, 0x00, 0x00, 0xFF, 0x00, 0xFF, 0x00]), Some(Ok(())));
    assert_eq!(scan_ack(&[0x42, 0xFF, 0x00, 0x17, 0x00, 0x00, 0x00, 0xFF, 0x00]), Some(Ok(())));
    assert_eq!(scan_ack(&[0x00, 0xFF, 0x00]), Some(Ok(())));
}

#[test]
fn nack_is_reported() {
    assert_eq!(scan_ack(&[0x00, 0x00, 0xFF, 0xFF]), Some(Err(Error::Nack)));
    let buf = snapshot(&[0x00, 0x00, 0xFF, 0xFF, 0x00, 0x00], 0x00);
    assert_eq!(scan_ack(&buf), Some(Err(Error::Nack)));
}

#[test]
fn fault_code_is_read_two_bytes_on() {
    assert_eq!(
        scan_ack(&[0x00, 0x00, 0xFF, 0x01, 0xFF, 0xAB]),
        Some(Err(Error::ApplicationError(0xAB)))
    );
    for between in [0x00u8, 0x01, 0x7F, 0xFF] {
        let buf = snapshot(&[0x00, 0x00, 0xFF, 0x01, between, 0xAB, 0xCD], 0x00);
        assert_eq!(scan_ack(&buf), Some(Err(Error::ApplicationError(0xAB))));
        assert_eq!(scan_frame(&buf), Some(Err(Error::ApplicationError(0xAB))));
    }
    // The error frame of the chip's manual, behind the status byte.
    let buf = snapshot(&[0x01, 0x00, 0x00, 0xFF, 0x01, 0xFF, 0x7F, 0x81, 0x00], 0x00);
    assert_eq!(scan_ack(&buf), Some(Err(Error::ApplicationError(0x7F))));
}

#[test]
fn fault_code_beyond_the_snapshot() {
    assert_eq!(scan_ack(&[0x00, 0x00, 0xFF, 0x01]), Some(Err(Error::DecodeError)));
    assert_eq!(scan_ack(&[0x00, 0x00, 0xFF, 0x01, 0xAB]), Some(Err(Error::DecodeError)));
    assert_eq!(scan_frame(&[0x00, 0x00, 0xFF, 0x01, 0xAB]), Some(Err(Error::DecodeError)));
    let mut buf = [0xA5u8; SNAPSHOT_LEN];
    buf[252] = 0x00;
    buf[253] = 0xFF;
    buf[254] = 0x01;
    assert_eq!(scan_ack(&buf), Some(Err(Error::DecodeError)));
    buf[251] = 0x00;
    buf[252] = 0xFF;
    buf[253] = 0x01;
    buf[254] = 0xA5;
    buf[255] = 0x3C;
    assert_eq!(scan_ack(&buf), Some(Err(Error::ApplicationError(0x3C))));
}

#[test]
fn other_bytes_are_out_of_order() {
    assert_eq!(scan_ack(&[0x00, 0x00, 0xFF, 0x02]), Some(Err(Error::OutOfOrder)));
    assert_eq!(scan_ack(&[0x00, 0x00, 0xFF, 0x06, 0xFA, 0xD5]), Some(Err(Error::OutOfOrder)));
    for byte in 2..=254u8 {
        assert_eq!(scan_ack(&[0x00, 0xFF, byte, 0x00, 0x00]), Some(Err(Error::OutOfOrder)));
    }
}

#[test]
fn no_marker_no_verdict() {
    assert_eq!(scan_ack(&[]), None);
    assert_eq!(scan_ack(&[0x00]), None);
    assert_eq!(scan_ack(&[0xFF, 0xFF, 0x00]), None);
    assert_eq!(scan_ack(&[0u8; SNAPSHOT_LEN]), None);
    assert_eq!(scan_ack(&[0xFFu8; SNAPSHOT_LEN]), None);
    assert_eq!(scan_frame(&[]), None);
    assert_eq!(scan_frame(&[0u8; SNAPSHOT_LEN]), None);
    assert_eq!(scan_frame(&[0xFFu8; SNAPSHOT_LEN]), None);
}

#[test]
fn marker_at_the_very_end_decides_nothing() {
    assert_eq!(scan_ack(&[0x00, 0xFF]), None);
    assert_eq!(scan_frame(&[0x00, 0xFF]), None);
    let mut buf = [0x11u8; SNAPSHOT_LEN];
    buf[254] = 0x00;
    buf[255] = 0xFF;
    assert_eq!(scan_ack(&buf), None);
    assert_eq!(scan_frame(&buf), None);
}

#[test]
fn a_byte_between_preamble_and_start_breaks_the_marker() {
    assert_eq!(scan_ack(&[0x00, 0x01, 0xFF, 0x00]), None);
    assert_eq!(scan_ack(&[0x00, 0x01, 0xFF, 0x00, 0x00, 0xFF, 0xFF]), Some(Err(Error::Nack)));
}

#[test]
fn only_the_first_marker_counts() {
    assert_eq!(
        scan_ack(&[0x00, 0x00, 0xFF, 0xFF, 0x00, 0x00, 0xFF, 0x00]),
        Some(Err(Error::Nack))
    );
    assert_eq!(
        scan_ack(&[0x00, 0x00, 0xFF, 0x00, 0x00, 0x00, 0xFF, 0xFF]),
        Some(Ok(()))
    );
    // The acknowledgement in front hides the response behind it.
    assert_eq!(
        scan_frame(&[0x00, 0x00, 0xFF, 0x00, 0xFF, 0x00, 0x00, 0x00, 0xFF, 0x02, 0xFE, 0xD5, 0x03]),
        None
    );
}

#[test]
fn frame_of_declared_length_five() {
    let buf = snapshot(
        &[0x00, 0x00, 0xFF, 0x05, 0xFB, 0xD5, 0x11, 0x22, 0x33, 0x44, 0x81, 0x00],
        0x00,
    );
    assert_eq!(scan_frame(&buf), Some(Ok(vec![0x11, 0x22, 0x33, 0x44])));
}

#[test]
fn frame_behind_status_byte() {
    let buf = snapshot(
        &[0x01, 0x00, 0x00, 0xFF, 0x06, 0xFA, 0xD5, 0x03, 0x32, 0x01, 0x06, 0x07, 0xE8, 0x00],
        0x00,
    );
    assert_eq!(scan_frame(&buf), Some(Ok(vec![0x03, 0x32, 0x01, 0x06, 0x07])));
}

#[test]
fn frame_scan_passes_over_ack_and_nack() {
    assert_eq!(scan_frame(&snapshot(&[0x00, 0x00, 0xFF, 0x00, 0xFF, 0x00], 0x00)), None);
    assert_eq!(scan_frame(&snapshot(&[0x00, 0x00, 0xFF, 0xFF, 0x00, 0x00], 0x00)), None);
}

#[test]
fn frame_that_ends_with_the_snapshot() {
    assert_eq!(
        scan_frame(&[0x00, 0x00, 0xFF, 0x03, 0xFD, 0xD5, 0x15, 0x16]),
        Some(Ok(vec![0x15, 0x16]))
    );
    let mut buf = [0x11u8; SNAPSHOT_LEN];
    buf[0] = 0x00;
    buf[1] = 0xFF;
    buf[2] = 0xFC;
    assert_eq!(scan_frame(&buf), Some(Ok(vec![0x11u8; 251])));
    buf[2] = 0xFD;
    assert_eq!(scan_frame(&buf), Some(Err(Error::DecodeError)));
}

#[test]
fn frame_that_runs_past_the_snapshot() {
    assert_eq!(
        scan_frame(&[0x00, 0x00, 0xFF, 0x03, 0xFD, 0xD5, 0x15]),
        Some(Err(Error::DecodeError))
    );
    assert_eq!(scan_frame(&[0x00, 0x00, 0xFF, 0x02]), Some(Err(Error::DecodeError)));
    assert_eq!(scan_frame(&[0x00, 0x00, 0xFF, 0x02, 0xFE, 0xD5]), Some(Err(Error::DecodeError)));
    let mut buf = [0x11u8; SNAPSHOT_LEN];
    buf[1] = 0x00;
    buf[2] = 0xFF;
    buf[3] = 0xFE;
    assert_eq!(scan_frame(&buf), Some(Err(Error::DecodeError)));
    let mut late = [0x11u8; SNAPSHOT_LEN];
    late[250] = 0x00;
    late[251] = 0xFF;
    late[252] = 0x05;
    assert_eq!(scan_frame(&late), Some(Err(Error::DecodeError)));
    late[252] = 0x02;
    assert_eq!(scan_frame(&late), Some(Ok(vec![0x11])));
}

#[test]
fn what_was_framed_is_found() {
    let payloads: Vec<Vec<u8>> = vec![
        vec![0x02],
        vec![0x4A, 0x02, 0x00],
        vec![0x00, 0x00, 0xFF, 0x00],
        vec![0x00, 0xFF, 0xFF, 0x00, 0x00, 0xFF, 0x01, 0x02, 0x03],
        (0..253).map(|i| (i * 13 + 1) as u8).collect(),
        vec![0xFF; 100],
        vec![0x00; 253],
    ];
    for payload in &payloads {
        let frame = encode(payload);
        assert_eq!(scan_frame(&frame), Some(Ok(payload.clone())));
    }
}

#[test]
fn what_was_framed_is_found_amid_other_bytes() {
    let noises: Vec<Vec<u8>> = vec![
        vec![],
        vec![0x01],
        vec![0x00],
        vec![0x00, 0x00, 0x00],
        vec![0xFF, 0xFF, 0x00, 0x01, 0xFF, 0x00],
        vec![0xFF],
    ];
    let tails: Vec<Vec<u8>> = vec![vec![], vec![0x00, 0x00, 0xFF, 0x00, 0xFF, 0x00], vec![0x99; 40]];
    for noise in &noises {
        for tail in &tails {
            for len in [1usize, 2, 5, 64, 200] {
                let payload: Vec<u8> = (0..len).map(|i| (i * 29 + len) as u8).collect();
                let mut buf = noise.clone();
                buf.extend_from_slice(&encode(&payload));
                buf.extend_from_slice(tail);
                assert_eq!(scan_frame(&buf), Some(Ok(payload)));
            }
        }
    }
}

#[test]
fn frame_of_an_empty_payload_reads_as_a_fault() {
    let frame = encode(&[]);
    assert_eq!(scan_frame(&frame), Some(Err(Error::ApplicationError(0xD4))));
}

#[test]
fn a_frame_is_out_of_order_for_the_ack_scanner() {
    let frame = encode(&[0x02]);
    assert_eq!(scan_ack(&frame), Some(Err(Error::OutOfOrder)));
}
