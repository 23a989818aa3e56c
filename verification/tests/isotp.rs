//! ISO-TP segmentation and reassembly.

use bmw_diag::isotp::{
    segment_payload, reassemble_frames, FlowControlAction, IsoTpError, IsoTpFrame,
    flow_control_action, separation_time_micros,
};

fn round_trip(payload: &[u8]) {
    let frames = segment_payload(payload).unwrap();
    let back = reassemble_frames(&frames).unwrap();
    assert_eq!(back, payload.to_vec());
}

#[test]
fn test_single_frame_round_trip() {
    round_trip(&[0x3E]);
    round_trip(&[0x19, 0x02, 0xFF]);
}

#[test]
fn test_seven_bytes_is_one_single_frame() {
    let payload = [1u8, 2, 3, 4, 5, 6, 7];
    let frames = segment_payload(&payload).unwrap();
    assert_eq!(frames.len(), 1);
    assert_eq!(frames[0], [0x07, 1, 2, 3, 4, 5, 6, 7]);
    round_trip(&payload);
}

#[test]
fn test_eight_bytes_is_first_plus_one_consecutive() {
    let payload = [1u8, 2, 3, 4, 5, 6, 7, 8];
    let frames = segment_payload(&payload).unwrap();
    assert_eq!(frames.len(), 2);
    assert_eq!(frames[0], [0x10, 0x08, 1, 2, 3, 4, 5, 6]);
    assert_eq!(frames[1], [0x21, 7, 8, 0, 0, 0, 0, 0]);
    round_trip(&payload);
}

#[test]
fn test_sequence_number_wraps_to_zero() {
    // 6 + 7 * 15 = 111 bytes reach sequence number 15; the next frame must
    // carry 0, not 1.
    let payload: Vec<u8> = (0..118u32).map(|i| (i % 251) as u8).collect();
    let frames = segment_payload(&payload).unwrap();
    assert_eq!(frames.len(), 1 + 16);
    assert_eq!(frames[15][0], 0x2F);
    assert_eq!(frames[16][0], 0x20);
    round_trip(&payload);
}

#[test]
fn test_longest_payload_round_trip() {
    let payload: Vec<u8> = (0..4095u32).map(|i| (i % 253) as u8).collect();
    round_trip(&payload);
}

#[test]
fn test_empty_and_oversized_payloads_rejected() {
    assert_eq!(segment_payload(&[]), Err(IsoTpError::EmptyPayload));
    let too_long = vec![0u8; 4096];
    assert_eq!(segment_payload(&too_long), Err(IsoTpError::PayloadTooLong));
}

#[test]
fn test_sequence_error_detected() {
    let payload: Vec<u8> = (0..20u8).collect();
    let mut frames = segment_payload(&payload).unwrap();
    // Corrupt the second consecutive frame's sequence number.
    frames[2][0] = 0x23;
    assert_eq!(reassemble_frames(&frames), Err(IsoTpError::SequenceError));
}

#[test]
fn test_incomplete_message_detected() {
    let payload: Vec<u8> = (0..20u8).collect();
    let mut frames = segment_payload(&payload).unwrap();
    frames.pop();
    assert_eq!(reassemble_frames(&frames), Err(IsoTpError::Incomplete));
}

#[test]
fn test_reassembly_of_received_frames() {
    // A First frame announcing ten bytes, then one Consecutive frame.
    let frames = vec![
        [0x10, 0x0A, 0x62, 0xAB, 0x11, 0x00, 0x0A, 0x00],
        [0x21, 0x00, 0x00, 0x00, 0x00, 0x00, 0x00, 0x00],
    ];
    let payload = reassemble_frames(&frames).unwrap();
    assert_eq!(payload, vec![0x62, 0xAB, 0x11, 0x00, 0x0A, 0x00, 0x00, 0x00, 0x00, 0x00]);
}

#[test]
fn test_frame_constructors() {
    let sf = IsoTpFrame::single(vec![0x3E, 0x00]).unwrap();
    assert_eq!(sf.to_can_data(), [0x02, 0x3E, 0x00, 0, 0, 0, 0, 0]);
    assert!(IsoTpFrame::single(vec![0u8; 8]).is_err());

    let ff = IsoTpFrame::first(&[1, 2, 3, 4, 5, 6, 7, 8, 9, 10], 10);
    assert_eq!(ff.to_can_data(), [0x10, 0x0A, 1, 2, 3, 4, 5, 6]);

    let cf = IsoTpFrame::consecutive(vec![7, 8, 9], 17).unwrap();
    assert_eq!(cf.sequence, Some(1));
    assert_eq!(cf.to_can_data(), [0x21, 7, 8, 9, 0, 0, 0, 0]);

    let fc = IsoTpFrame::flow_control(0, 0, 0);
    assert_eq!(fc.to_can_data(), [0x30, 0, 0, 0, 0, 0, 0, 0]);
}

#[test]
fn test_from_can_data() {
    let sf = IsoTpFrame::from_can_data(&[0x03, 0x7F, 0x22, 0x78, 0, 0, 0, 0]).unwrap();
    assert_eq!(sf.frame_type, 0x00);
    assert_eq!(sf.data, vec![0x7F, 0x22, 0x78]);

    let ff = IsoTpFrame::from_can_data(&[0x10, 0x0A, 0x62, 0xAB, 0x11, 0x00, 0x0A, 0x00]).unwrap();
    assert_eq!(ff.total_length, Some(10));
    assert_eq!(ff.data, vec![0x62, 0xAB, 0x11, 0x00, 0x0A, 0x00]);

    let cf = IsoTpFrame::from_can_data(&[0x2F, 1, 2, 3, 4, 5, 6, 7]).unwrap();
    assert_eq!(cf.sequence, Some(15));

    let fc = IsoTpFrame::from_can_data(&[0x31, 4, 5, 0, 0, 0, 0, 0]).unwrap();
    assert_eq!(fc.data, vec![1, 4, 5]);

    assert!(IsoTpFrame::from_can_data(&[]).is_err());
    assert!(IsoTpFrame::from_can_data(&[0x4A, 0, 0, 0, 0, 0, 0, 0]).is_err());
}

#[test]
fn test_flow_control_actions() {
    let go = IsoTpFrame::flow_control(0, 4, 10);
    assert_eq!(flow_control_action(&go), FlowControlAction::Continue(4, 10));
    let wait = IsoTpFrame::flow_control(1, 0, 0);
    assert_eq!(flow_control_action(&wait), FlowControlAction::Wait);
    let overflow = IsoTpFrame::flow_control(2, 0, 0);
    assert_eq!(flow_control_action(&overflow), FlowControlAction::Overflow);
    let reserved = IsoTpFrame::flow_control(7, 0, 0);
    assert_eq!(flow_control_action(&reserved), FlowControlAction::Invalid);
    let not_fc = IsoTpFrame::single(vec![0x3E]).unwrap();
    assert_eq!(flow_control_action(&not_fc), FlowControlAction::Invalid);
}

#[test]
fn test_separation_time_decoding() {
    assert_eq!(separation_time_micros(0x00), 0);
    assert_eq!(separation_time_micros(0x14), 20_000);
    assert_eq!(separation_time_micros(0x7F), 127_000);
    assert_eq!(separation_time_micros(0xF1), 100);
    assert_eq!(separation_time_micros(0xF9), 900);
    assert_eq!(separation_time_micros(0x80), 0);
    assert_eq!(separation_time_micros(0xFA), 0);
}
