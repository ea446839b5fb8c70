//! The WAV sink, the level meter, and the recording session state machine.

use aitotype::errors::ErrorKind;
use aitotype::level::{isqrt_u128, LevelMeter};
use aitotype::session::{
    wait_exhausted, RecordingSession, SessionState, StopPoll, FINALIZE_WAIT_TICKS,
};
use aitotype::wav::WavSink;
use aitotype::LEVEL_SCALE;

#[test]
fn wav_bytes_form_a_valid_container_for_hound() {
    let mut sink = WavSink::new(8000, 1);
    sink.append_buffer(&vec![0i16, 1, -1, 32767, -32768]);
    let bytes = sink.finalize();
    assert_eq!(bytes.len(), 44 + 2 * 5);
    assert_eq!(&bytes[0..4], b"RIFF");
    assert_eq!(&bytes[8..12], b"WAVE");
    let reader = hound::WavReader::new(std::io::Cursor::new(bytes)).unwrap();
    let spec = reader.spec();
    assert_eq!(spec.sample_rate, 8000);
    assert_eq!(spec.channels, 1);
    assert_eq!(spec.bits_per_sample, 16);
    assert_eq!(spec.sample_format, hound::SampleFormat::Int);
    let samples: Vec<i16> = reader.into_samples::<i16>().map(|s| s.unwrap()).collect();
    assert_eq!(samples, vec![0i16, 1, -1, 32767, -32768]);
}

#[test]
fn wav_header_sizes_are_consistent() {
    let sink = WavSink::new(44100, 2);
    let bytes = sink.finalize();
    assert_eq!(bytes.len(), 44);
    let riff = u32::from_le_bytes([bytes[4], bytes[5], bytes[6], bytes[7]]);
    assert_eq!(riff as usize, bytes.len() - 8);
    let data = u32::from_le_bytes([bytes[40], bytes[41], bytes[42], bytes[43]]);
    assert_eq!(data, 0);
    let channels = u16::from_le_bytes([bytes[22], bytes[23]]);
    let rate = u32::from_le_bytes([bytes[24], bytes[25], bytes[26], bytes[27]]);
    assert_eq!(channels, 2);
    assert_eq!(rate, 44100);
}

#[test]
fn isqrt_rounds_down() {
    assert_eq!(isqrt_u128(0), 0);
    assert_eq!(isqrt_u128(1), 1);
    assert_eq!(isqrt_u128(3), 1);
    assert_eq!(isqrt_u128(4), 2);
    assert_eq!(isqrt_u128(99), 9);
    assert_eq!(isqrt_u128(100), 10);
    assert_eq!(isqrt_u128(u128::MAX), u64::MAX as u128);
}

#[test]
fn meter_rises_fast_and_decays_smoothly() {
    let mut meter = LevelMeter::new();
    assert_eq!(meter.current(), 0);
    // full-scale positive samples: gained RMS clamps to the top of the scale
    meter.observe(&vec![32767i16; 4]);
    assert_eq!(meter.current(), 3000);
    meter.observe(&vec![32767i16; 4]);
    assert_eq!(meter.current(), 5100);
    // silence decays by the historical weight
    meter.observe(&vec![0i16; 8]);
    assert_eq!(meter.current(), 3570);
    meter.reset();
    assert_eq!(meter.current(), 0);
}

#[test]
fn level_scale_is_the_meter_ceiling() {
    assert_eq!(LEVEL_SCALE, 10000);
}

#[test]
fn session_lifecycle_records_and_finalizes_once() {
    let mut s = RecordingSession::new();
    assert!(!s.is_recording());
    assert_eq!(s.get_audio_level(), 0);

    assert!(s.try_start("out.wav".to_string()).is_ok());
    assert!(s.is_recording());
    assert!(s.attach_device(16000, 1));
    assert!(s.accept_buffer(&vec![100i16; 160]));
    assert!(s.get_audio_level() > 0);

    assert!(s.request_stop().is_ok());
    assert!(!s.is_recording());
    assert_eq!(s.get_audio_level(), 0);
    // a buffer racing in after stop is discarded
    assert!(!s.accept_buffer(&vec![5i16; 4]));

    let bytes = s.finalize_wav().unwrap();
    assert_eq!(&bytes[0..4], b"RIFF");
    let reader = hound::WavReader::new(std::io::Cursor::new(bytes)).unwrap();
    assert_eq!(reader.spec().sample_rate, 16000);
    assert_eq!(reader.spec().channels, 1);
    // finalize happens exactly once
    assert!(s.finalize_wav().is_none());

    s.finalize_complete();
    match s.stop_poll() {
        StopPoll::Finished(path) => assert_eq!(path, "out.wav"),
        _ => panic!("expected the finished path"),
    }
    assert!(!s.is_recording());
}

#[test]
fn start_while_recording_is_rejected_without_side_effects() {
    let mut s = RecordingSession::new();
    s.try_start("first.wav".to_string()).unwrap();
    let before_state = s.state;
    let before_path = s.output_path.clone();
    let e = s.try_start("second.wav".to_string()).unwrap_err();
    assert_eq!(e.kind, ErrorKind::AlreadyRecording);
    assert_eq!(s.state, before_state);
    assert_eq!(s.output_path, before_path);
}

#[test]
fn start_while_finalizing_is_rejected() {
    let mut s = RecordingSession::new();
    s.try_start("a.wav".to_string()).unwrap();
    s.request_stop().unwrap();
    let e = s.try_start("b.wav".to_string()).unwrap_err();
    assert_eq!(e.kind, ErrorKind::PreviousSessionNotDone);
}

#[test]
fn stop_with_no_active_session_is_not_recording() {
    let mut s = RecordingSession::new();
    let e = s.request_stop().unwrap_err();
    assert_eq!(e.kind, ErrorKind::NotRecording);
}

#[test]
fn level_reads_zero_whenever_not_recording() {
    let mut s = RecordingSession::new();
    assert_eq!(s.get_audio_level(), 0);
    s.try_start("x.wav".to_string()).unwrap();
    s.attach_device(8000, 1);
    s.accept_buffer(&vec![20000i16; 64]);
    assert!(s.get_audio_level() > 0);
    s.request_stop().unwrap();
    assert_eq!(s.get_audio_level(), 0);
}

#[test]
fn worker_failure_is_surfaced_on_the_next_stop() {
    let mut s = RecordingSession::new();
    s.try_start("x.wav".to_string()).unwrap();
    s.report_failure(ErrorKind::DeviceUnavailable);
    assert!(!s.is_recording());
    let e = s.request_stop().unwrap_err();
    assert_eq!(e.kind, ErrorKind::DeviceUnavailable);
    // the pending failure is cleared after being reported
    let e2 = s.request_stop().unwrap_err();
    assert_eq!(e2.kind, ErrorKind::NotRecording);
}

#[test]
fn unsupported_format_is_rejected_at_attach() {
    let mut s = RecordingSession::new();
    s.try_start("x.wav".to_string()).unwrap();
    assert!(!s.attach_device(0, 1));
    assert!(!s.attach_device(8000, 0));
    assert!(s.attach_device(8000, 2));
    // a second attach is rejected
    assert!(!s.attach_device(8000, 2));
}

#[test]
fn stop_wait_runs_out_after_the_tick_budget() {
    let mut s = RecordingSession::new();
    s.try_start("x.wav".to_string()).unwrap();
    s.request_stop().unwrap();
    let mut waits = 0u32;
    loop {
        match s.stop_poll() {
            StopPoll::KeepWaiting => waits += 1,
            StopPoll::Failed(e) => {
                assert_eq!(e.kind, ErrorKind::FinalizeTimeout);
                break;
            },
            StopPoll::Finished(_) => panic!("nothing finalized this recording"),
        }
    }
    assert_eq!(waits, FINALIZE_WAIT_TICKS);
    assert!(wait_exhausted(FINALIZE_WAIT_TICKS));
    assert!(!wait_exhausted(FINALIZE_WAIT_TICKS - 1));
}

#[test]
fn session_state_transitions_are_visible() {
    let mut s = RecordingSession::new();
    assert_eq!(s.state, SessionState::Idle);
    s.try_start("x.wav".to_string()).unwrap();
    assert_eq!(s.state, SessionState::Recording);
    s.request_stop().unwrap();
    assert_eq!(s.state, SessionState::Finalizing);
}
