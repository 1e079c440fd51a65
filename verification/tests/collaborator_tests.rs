use recordnote::ui::app::AppState;
use recordnote::MinutesFormatter;
use recordnote::RecordNoteApp;
use recordnote::WhisperTranscriber;

#[test]
fn transcriber_tracks_model_and_loading() {
    let mut t = WhisperTranscriber::new("tiny".to_string());
    assert_eq!(t.model_size(), "tiny");
    assert!(!t.is_loaded());
    t.mark_loaded();
    assert!(t.is_loaded());
    assert_eq!(t.model_size(), "tiny");
}

#[test]
fn default_transcriber_uses_the_base_model() {
    let t = WhisperTranscriber::default();
    assert_eq!(t.model_size(), "base");
    assert!(!t.is_loaded());
}

#[test]
fn app_state_starts_idle() {
    let s = AppState::new();
    assert_eq!(s.meeting_title, "");
    assert_eq!(s.recording_state, "stopped");
    assert_eq!(s.duration, "録音時間: 0.0秒");
    assert_eq!(s.status, "録音待機中");
    assert_eq!(s.model_size, "base");
    assert!(!s.is_recording);
    assert!(!s.is_processing);
    assert!(!s.can_download);
    assert_eq!(s.formatted_minutes, "");
}

#[test]
fn formatter_and_app_shell_construct() {
    let _formatter = MinutesFormatter::new();
    let _default_formatter = MinutesFormatter::default();
    let _app = RecordNoteApp::new();
    let _default_app = RecordNoteApp::default();
}
