use recordnote::audio::recorder::RecorderError;
use recordnote::audio::recorder::RecordingState;
use recordnote::AudioRecorder;

#[test]
fn test_audio_recorder_creation() {
    let recorder = AudioRecorder::default();
    assert!(!recorder.is_recording());
    let duration = recorder.sample_count() as f64 / recorder.channels() as f64
        / recorder.sample_rate() as f64;
    assert_eq!(duration, 0.0);
}

#[test]
fn test_recorder_state_management() {
    let recorder = AudioRecorder::default();
    assert_eq!(recorder.get_state(), RecordingState::Stopped);
    assert!(!recorder.is_recording());
}

#[test]
fn start_twice_fails_and_keeps_session() {
    let mut r = AudioRecorder::new(16000, 1);
    assert!(r.start_begin().is_ok());
    r.start_commit();
    assert!(r.is_recording());
    r.deliver_samples(&vec![0.5f32.to_bits(); 100]);
    let second = r.start_begin();
    assert_eq!(second, Err(RecorderError::InvalidTransition));
    assert_eq!(r.get_state(), RecordingState::Recording);
    assert_eq!(r.sample_count(), 100);
}

#[test]
fn stop_while_stopped_fails_and_changes_nothing() {
    let mut r = AudioRecorder::new(16000, 1);
    let res = r.stop_begin();
    assert_eq!(res, Err(RecorderError::InvalidTransition));
    assert_eq!(r.get_state(), RecordingState::Stopped);
    assert_eq!(r.sample_count(), 0);
}

#[test]
fn duration_counts_exactly_the_delivered_samples() {
    let mut r = AudioRecorder::new(16000, 1);
    r.start_begin().unwrap();
    r.start_commit();
    r.deliver_samples(&vec![0.5f32.to_bits(); 400]);
    r.deliver_samples(&vec![0.25f32.to_bits(); 400]);
    r.stop_begin().unwrap();
    r.stop_finish();
    assert_eq!(r.sample_count(), 800);
    let duration = r.sample_count() as f64 / r.channels() as f64 / r.sample_rate() as f64;
    assert_eq!(duration, 0.05);
}

#[test]
fn late_callback_is_discarded_after_stop_begins() {
    let mut r = AudioRecorder::new(16000, 1);
    r.start_begin().unwrap();
    r.start_commit();
    r.deliver_samples(&vec![0.5f32.to_bits(); 10]);
    r.stop_begin().unwrap();
    assert_eq!(r.get_state(), RecordingState::Processing);
    r.deliver_samples(&vec![0.5f32.to_bits(); 10]);
    assert_eq!(r.sample_count(), 10);
    r.stop_finish();
    r.deliver_samples(&vec![0.5f32.to_bits(); 10]);
    assert_eq!(r.sample_count(), 10);
}

#[test]
fn failed_start_leaves_recorder_stopped_and_reusable() {
    let mut r = AudioRecorder::new(16000, 1);
    r.start_begin().unwrap();
    // The host reported no default input device: the driver never calls
    // start_commit, so no session begins.
    assert_eq!(r.get_state(), RecordingState::Stopped);
    assert!(!r.is_recording());
    assert!(r.start_begin().is_ok());
}

#[test]
fn empty_buffer_serialization_fails_with_empty_data() {
    let r = AudioRecorder::new(16000, 1);
    assert_eq!(r.get_audio_bytes().unwrap_err(), RecorderError::EmptyData);
}

#[test]
fn partial_frame_serialization_fails_with_encode_failure() {
    let mut r = AudioRecorder::new(16000, 2);
    r.start_begin().unwrap();
    r.start_commit();
    r.deliver_samples(&vec![0.5f32.to_bits(); 3]);
    r.stop_begin().unwrap();
    r.stop_finish();
    assert_eq!(r.get_audio_bytes().unwrap_err(), RecorderError::EncodeFailure);
}

#[test]
fn new_session_clears_the_previous_buffer() {
    let mut r = AudioRecorder::new(16000, 1);
    r.start_begin().unwrap();
    r.start_commit();
    r.deliver_samples(&vec![0.5f32.to_bits(); 50]);
    r.stop_begin().unwrap();
    r.stop_finish();
    assert_eq!(r.sample_count(), 50);
    r.start_begin().unwrap();
    assert_eq!(r.sample_count(), 0);
}
