//! The window state the user interface displays. The widgets, timers and
//! event dispatch belong to the graphical front-end outside this library,
//! which is a pure consumer of the recorder's queries; only the initial
//! state they all start from is fixed here.

use vstd::prelude::*;

verus! {

/// Everything the window shows: labels, the result text, and the flags
/// that enable or disable the controls.
pub struct AppState {
    pub meeting_title: String,
    pub recording_state: String,
    pub duration: String,
    pub status: String,
    pub results_text: String,
    pub model_size: String,
    pub is_recording: bool,
    pub is_processing: bool,
    pub can_download: bool,
    pub formatted_minutes: String,
}

impl AppState {
    /// The state a freshly opened window starts from: idle, waiting for a
    /// recording, with no result to download.
    pub fn new() -> (r: AppState)
        ensures
            r.meeting_title@ == Seq::<char>::empty(),
            r.recording_state@ == "stopped"@,
            r.duration@ == "録音時間: 0.0秒"@,
            r.status@ == "録音待機中"@,
            r.results_text@ == "録音を開始して音声を議事録に変換してください。"@,
            r.model_size@ == "base"@,
            !r.is_recording,
            !r.is_processing,
            !r.can_download,
            r.formatted_minutes@ == Seq::<char>::empty(),
    {
        AppState {
            meeting_title: String::new(),
            recording_state: "stopped".to_owned(),
            duration: "録音時間: 0.0秒".to_owned(),
            status: "録音待機中".to_owned(),
            results_text: "録音を開始して音声を議事録に変換してください。".to_owned(),
            model_size: "base".to_owned(),
            is_recording: false,
            is_processing: false,
            can_download: false,
            formatted_minutes: String::new(),
        }
    }
}

/// The application shell the front-end launches.
pub struct RecordNoteApp {}

impl RecordNoteApp {
    /// A new application shell.
    pub fn new() -> (r: RecordNoteApp)
        ensures
            r == (RecordNoteApp {  }),
    {
        RecordNoteApp {  }
    }
}

impl Default for RecordNoteApp {
    fn default() -> (r: RecordNoteApp)
        ensures
            r == (RecordNoteApp {  }),
    {
        RecordNoteApp::new()
    }
}

} // verus!
