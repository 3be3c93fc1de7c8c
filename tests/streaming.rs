use uac2::heartbeat::{heartbeat_frame, HEARTBEAT_SEED};
use uac2::streaming::{
    after_transfer, mic_frame, mix, mix_down, on_read, select_payload, state_for_alt,
    EndpointError, ReceiveAction, StreamState, Wake, MIC_FRAME_LEN, SPEAKER_READ_LEN,
};

fn stereo(pairs: &[(i16, i16)]) -> Vec<u8> {
    let mut v = Vec::new();
    for (l, r) in pairs {
        v.extend_from_slice(&l.to_le_bytes());
        v.extend_from_slice(&r.to_le_bytes());
    }
    v
}

#[test]
fn mix_is_sum_of_arithmetic_shifts() {
    assert_eq!(mix(100, 50), 75);
    assert_eq!(mix(-1, -1), -2);
    assert_eq!(mix(-3, 1), -2);
    assert_eq!(mix(i16::MIN, i16::MIN), i16::MIN);
    assert_eq!(mix(i16::MAX, i16::MAX), 32766);
    assert_eq!(mix(i16::MIN, i16::MAX), -1);
    for l in [-32768i16, -32767, -2, -1, 0, 1, 2, 32766, 32767] {
        for r in [-32768i16, -5, 0, 7, 32767] {
            assert_eq!(mix(l, r), (l >> 1) + (r >> 1));
        }
    }
}

#[test]
fn mix_down_of_400_bytes_gives_200() {
    let data: Vec<u8> = (0..SPEAKER_READ_LEN).map(|i| (i * 7 % 256) as u8).collect();
    let out = mix_down(&data);
    assert_eq!(out.len(), 200);
    for k in 0..100 {
        let l = i16::from_le_bytes([data[4 * k], data[4 * k + 1]]);
        let r = i16::from_le_bytes([data[4 * k + 2], data[4 * k + 3]]);
        assert_eq!(i16::from_le_bytes([out[2 * k], out[2 * k + 1]]), (l >> 1) + (r >> 1));
    }
}

#[test]
fn mix_down_drops_partial_chunk() {
    let mut data = stereo(&[(1000, -1000), (-32768, -32768)]);
    data.extend_from_slice(&[1, 2, 3]);
    assert_eq!(mix_down(&data), vec![0x00, 0x00, 0x00, 0x80]);
    assert!(mix_down(&[]).is_empty());
}

#[test]
fn mic_frame_pads_short_transfers_with_zeros() {
    let data = stereo(&[(200, 100), (-4, -4)]);
    let frame = mic_frame(&data);
    assert_eq!(frame.len(), MIC_FRAME_LEN);
    assert_eq!(&frame[0..4], &[150, 0, 0xFC, 0xFF]);
    assert!(frame[4..].iter().all(|b| *b == 0));
}

#[test]
fn mic_frame_cuts_long_transfers() {
    let pairs: Vec<(i16, i16)> = (0..100).map(|i| (i as i16 * 4, i as i16 * 2)).collect();
    let data = stereo(&pairs);
    let frame = mic_frame(&data);
    for k in 0..49 {
        assert_eq!(i16::from_le_bytes([frame[2 * k], frame[2 * k + 1]]), 3 * k as i16);
    }
}

#[test]
fn full_speaker_packet_fills_mic_frame() {
    let pairs: Vec<(i16, i16)> = (0..49).map(|i| (-(i as i16) * 2, -(i as i16) * 2)).collect();
    let data = stereo(&pairs);
    assert_eq!(data.len(), 196);
    let frame = mic_frame(&data);
    for k in 0..49 {
        assert_eq!(i16::from_le_bytes([frame[2 * k], frame[2 * k + 1]]), -2 * k as i16);
    }
}

#[test]
fn read_ok_publishes_frame_of_received_bytes_only() {
    let mut data = vec![0xFFu8; SPEAKER_READ_LEN];
    data[..8].copy_from_slice(&stereo(&[(10, 20), (30, 40)]));
    let (state, action) = on_read(StreamState::Enabled16, &data, Ok(8));
    assert_eq!(state, StreamState::Enabled16);
    match action {
        ReceiveAction::Publish(frame) => {
            assert_eq!(&frame[0..4], &[15, 0, 35, 0]);
            assert!(frame[4..].iter().all(|b| *b == 0));
        }
        ReceiveAction::WaitEnabled => panic!("expected a frame"),
    }
}

#[test]
fn read_error_disables_stream() {
    let data = [0u8; 16];
    for e in [EndpointError::Disabled, EndpointError::BufferOverflow] {
        let (state, action) = on_read(StreamState::Enabled16, &data, Err(e));
        assert_eq!(state, StreamState::Disabled);
        assert!(matches!(action, ReceiveAction::WaitEnabled));
    }
}

#[test]
fn stream_state_follows_alternate_setting_and_errors() {
    assert_eq!(state_for_alt(0), StreamState::Disabled);
    assert_eq!(state_for_alt(1), StreamState::Enabled16);
    assert_eq!(state_for_alt(2), StreamState::Enabled24);
    assert_eq!(state_for_alt(3), StreamState::Disabled);
    assert_eq!(after_transfer(StreamState::Enabled24, true), StreamState::Enabled24);
    assert_eq!(after_transfer(StreamState::Enabled24, false), StreamState::Disabled);
    assert_eq!(after_transfer(StreamState::Enabled16, false), StreamState::Disabled);
}

#[test]
fn payload_is_latest_when_signalled_and_heartbeat_on_timeout() {
    let latest = [7u8; 98];
    let heartbeat = heartbeat_frame(HEARTBEAT_SEED);
    assert_eq!(select_payload(Wake::Signalled, &latest, &heartbeat), &latest);
    assert_eq!(select_payload(Wake::Timeout, &latest, &heartbeat), &heartbeat);
}

#[test]
fn heartbeat_is_repeatable_and_not_constant() {
    let a = heartbeat_frame(HEARTBEAT_SEED);
    let b = heartbeat_frame(HEARTBEAT_SEED);
    assert_eq!(a, b);
    assert_eq!(a.len(), 98);
    assert!(a.iter().any(|x| *x != a[0]));
    assert_ne!(a, heartbeat_frame(HEARTBEAT_SEED ^ 1));
}

// A service-interval model of the two loops over 100 ms: the host sends a
// 196-byte packet every millisecond, except in the intervals listed as
// silent, where the 900 us timer runs out first.
#[test]
fn every_interval_sends_one_full_frame() {
    let heartbeat = heartbeat_frame(HEARTBEAT_SEED);
    let silent = [10usize, 11, 57];
    let mut latest = [0u8; 98];
    let mut state = StreamState::Enabled16;
    let mut writes = 0;
    let mut fallbacks = 0;
    for ms in 0..100usize {
        let wake = if silent.contains(&ms) {
            Wake::Timeout
        } else {
            let pairs: Vec<(i16, i16)> = (0..49).map(|i| ((ms + i) as i16, 0)).collect();
            let data = stereo(&pairs);
            let (s, action) = on_read(state, &data, Ok(data.len()));
            state = s;
            if let ReceiveAction::Publish(frame) = action {
                latest = frame;
            }
            Wake::Signalled
        };
        let payload = select_payload(wake, &latest, &heartbeat);
        assert_eq!(payload.len(), 98);
        if payload == &heartbeat {
            fallbacks += 1;
            assert_eq!(wake, Wake::Timeout);
        } else {
            assert_eq!(wake, Wake::Signalled);
            assert_eq!(i16::from_le_bytes([payload[0], payload[1]]), (ms as i16) >> 1);
        }
        writes += 1;
    }
    assert!(writes >= 95);
    assert_eq!(fallbacks, silent.len());
}
