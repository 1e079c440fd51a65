//! The recording lifecycle: a `Stopped / Recording / Processing` state
//! machine guarding an append-only buffer of interleaved samples.
//!
//! The hardware side (opening the input stream, the driver thread that
//! delivers each captured buffer, the drain wait on stop) lives outside this
//! library; it drives the recorder through the small transition methods
//! below. Every decision — which transitions are legal, when the buffer is
//! cleared, whether a delivered buffer is kept or discarded — is made here.
//!
//! Samples are 32-bit IEEE-754 values carried as their raw bit patterns
//! (`u32`), which is exactly what the capture callback receives and exactly
//! what the serialized container stores.

use vstd::prelude::*;

use crate::audio::wav;

verus! {

/// The lifecycle state shared between the control side and the capture
/// callback.
#[derive(Clone, Copy, Debug, PartialEq, Eq, Structural)]
pub enum RecordingState {
    Stopped,
    Recording,
    Processing,
}

/// Every failure the recorder reports. State-machine violations and
/// empty-buffer conditions are distinguishable from device and encoding
/// failures, so a caller can present them differently.
#[derive(Clone, Copy, Debug, PartialEq, Eq, Structural)]
pub enum RecorderError {
    /// `start` while a session is active, or `stop` while none is.
    InvalidTransition,
    /// No default input device, or its capability query failed.
    DeviceUnavailable,
    /// The sample buffer cannot be serialized into a well-formed container.
    EncodeFailure,
    /// A serialization request on a recorder that holds no samples.
    EmptyData,
}

/// The mathematical state of a recorder: the per-session configuration, the
/// lifecycle state, the accumulated samples (as raw bit patterns), and
/// whether a hardware stream handle is currently held.
#[verifier::ext_equal]
pub ghost struct RecorderModel {
    pub sample_rate: u32,
    pub channels: u16,
    pub state: RecordingState,
    pub samples: Seq<u32>,
    pub stream_open: bool,
}

impl RecorderModel {
    /// Well-formedness: a positive configuration whose byte rate fits the
    /// container's 32-bit fields, and a stream handle held exactly while
    /// recording.
    pub open spec fn wf(self) -> bool {
        &&& 1 <= self.sample_rate
        &&& 1 <= self.channels
        &&& 4 * (self.channels as int) * (self.sample_rate as int) <= 0xffff_ffff
        &&& (self.stream_open <==> self.state == RecordingState::Recording)
    }
}

/// The state of a freshly constructed recorder.
pub open spec fn initial(sample_rate: u32, channels: u16) -> RecorderModel {
    RecorderModel {
        sample_rate,
        channels,
        state: RecordingState::Stopped,
        samples: Seq::empty(),
        stream_open: false,
    }
}

/// A new session may begin only while no session is active.
pub open spec fn can_start(m: RecorderModel) -> bool {
    m.state == RecordingState::Stopped
}

/// First half of `start`: if legal, the buffer is cleared; the state stays
/// `Stopped` until a hardware stream has actually been opened, so a failure
/// while negotiating or opening the device leaves the recorder exactly as it
/// entered.
pub open spec fn start_begin_next(m: RecorderModel) -> RecorderModel {
    if can_start(m) {
        RecorderModel { samples: Seq::empty(), ..m }
    } else {
        m
    }
}

/// Second half of `start`, taken only once a stream is open: the recorder
/// enters `Recording` and owns the handle.
pub open spec fn start_commit_next(m: RecorderModel) -> RecorderModel {
    RecorderModel { state: RecordingState::Recording, stream_open: true, ..m }
}

/// What one callback invocation does: the delivered buffer is appended
/// verbatim if and only if the state it observes is `Recording`; otherwise
/// (including `Processing`, after a stop has begun) it is discarded.
pub open spec fn deliver_next(m: RecorderModel, data: Seq<u32>) -> RecorderModel {
    if m.state == RecordingState::Recording {
        RecorderModel { samples: m.samples + data, ..m }
    } else {
        m
    }
}

/// A session may be stopped only while one is active.
pub open spec fn can_stop(m: RecorderModel) -> bool {
    m.state == RecordingState::Recording
}

/// First half of `stop`: if legal, the state flips to `Processing` — from
/// this point every late callback discards its buffer — and the stream
/// handle is given up for destruction.
pub open spec fn stop_begin_next(m: RecorderModel) -> RecorderModel {
    if can_stop(m) {
        RecorderModel { state: RecordingState::Processing, stream_open: false, ..m }
    } else {
        m
    }
}

/// Second half of `stop`, taken after the drain wait: the session is over.
pub open spec fn stop_finish_next(m: RecorderModel) -> RecorderModel {
    RecorderModel { state: RecordingState::Stopped, ..m }
}

/// The audio recorder aggregate: one lifecycle state, one sample buffer, one
/// per-session configuration. The caller that owns the hardware stream keeps
/// `stream_open` truthful through `start_commit` / `stop_begin`.
pub struct AudioRecorder {
    sample_rate: u32,
    channels: u16,
    state: RecordingState,
    samples: Vec<u32>,
    stream_open: bool,
}

impl View for AudioRecorder {
    type V = RecorderModel;

    closed spec fn view(&self) -> RecorderModel {
        RecorderModel {
            sample_rate: self.sample_rate,
            channels: self.channels,
            state: self.state,
            samples: self.samples@,
            stream_open: self.stream_open,
        }
    }
}

impl AudioRecorder {
    /// A recorder for the requested configuration, idle and empty.
    pub fn new(sample_rate: u32, channels: u16) -> (r: AudioRecorder)
        requires
            1 <= sample_rate,
            1 <= channels,
            4 * (channels as int) * (sample_rate as int) <= 0xffff_ffff,
        ensures
            r@ == initial(sample_rate, channels),
            r@.wf(),
    {
        let r = AudioRecorder {
            sample_rate,
            channels,
            state: RecordingState::Stopped,
            samples: Vec::new(),
            stream_open: false,
        };
        proof {
            assert(r@ =~= initial(sample_rate, channels));
        }
        r
    }

    /// The default configuration: 44.1 kHz, mono.
    pub fn default() -> (r: AudioRecorder)
        ensures
            r@ == initial(44100, 1),
            r@.wf(),
    {
        AudioRecorder::new(44100, 1)
    }

    /// Requests a new session. Fails with `InvalidTransition`, changing
    /// nothing, unless the recorder is `Stopped`; on success the sample
    /// buffer of the previous session is cleared. The recorder stays
    /// `Stopped` until `start_commit` reports an open stream, so a device
    /// failure between the two calls leaves the state exactly as it entered.
    pub fn start_begin(&mut self) -> (r: Result<(), RecorderError>)
        requires
            old(self)@.wf(),
        ensures
            final(self)@ == start_begin_next(old(self)@),
            final(self)@.wf(),
            r is Ok <==> can_start(old(self)@),
            !can_start(old(self)@) ==> r == Err::<(), RecorderError>(
                RecorderError::InvalidTransition,
            ),
    {
        if self.state != RecordingState::Stopped {
            return Err(RecorderError::InvalidTransition);
        }
        self.samples.clear();
        proof {
            assert(self@ =~= start_begin_next(old(self)@));
        }
        Ok(())
    }

    /// Reports that a hardware input stream has been opened for this session:
    /// the recorder enters `Recording`. Legal only directly after a
    /// successful `start_begin`.
    pub fn start_commit(&mut self)
        requires
            old(self)@.wf(),
            can_start(old(self)@),
        ensures
            final(self)@ == start_commit_next(old(self)@),
            final(self)@.wf(),
    {
        self.state = RecordingState::Recording;
        self.stream_open = true;
        proof {
            assert(self@ =~= start_commit_next(old(self)@));
        }
    }

    /// The capture callback's contract: the delivered buffer is appended
    /// verbatim if and only if the state is `Recording` at the moment of the
    /// check; in every other state — in particular `Processing`, once a stop
    /// has begun — it is discarded and the recorder is untouched.
    pub fn deliver_samples(&mut self, data: &Vec<u32>)
        requires
            old(self)@.wf(),
        ensures
            final(self)@ == deliver_next(old(self)@, data@),
            final(self)@.wf(),
    {
        if self.state != RecordingState::Recording {
            return;
        }
        let mut i: usize = 0;
        while i < data.len()
            invariant
                0 <= i <= data@.len(),
                self@.samples == old(self)@.samples + data@.take(i as int),
                self@.sample_rate == old(self)@.sample_rate,
                self@.channels == old(self)@.channels,
                self@.state == old(self)@.state,
                self@.stream_open == old(self)@.stream_open,
                self@.state == RecordingState::Recording,
            decreases data@.len() - i,
        {
            self.samples.push(data[i]);
            proof {
                assert(old(self)@.samples + data@.take(i as int + 1) =~= (old(self)@.samples
                    + data@.take(i as int)).push(data@[i as int]));
            }
            i += 1;
        }
        proof {
            assert(data@.take(data@.len() as int) =~= data@);
            assert(self@ =~= deliver_next(old(self)@, data@));
        }
    }

    /// Requests the end of the session. Fails with `InvalidTransition`,
    /// changing nothing, unless the recorder is `Recording`; on success the
    /// state flips to `Processing` — so any callback still in flight
    /// discards its buffer — and the stream handle is released for
    /// destruction. The samples captured so far are kept untouched.
    pub fn stop_begin(&mut self) -> (r: Result<(), RecorderError>)
        requires
            old(self)@.wf(),
        ensures
            final(self)@ == stop_begin_next(old(self)@),
            final(self)@.wf(),
            r is Ok <==> can_stop(old(self)@),
            !can_stop(old(self)@) ==> r == Err::<(), RecorderError>(
                RecorderError::InvalidTransition,
            ),
    {
        if self.state != RecordingState::Recording {
            return Err(RecorderError::InvalidTransition);
        }
        self.state = RecordingState::Processing;
        self.stream_open = false;
        proof {
            assert(self@ =~= stop_begin_next(old(self)@));
        }
        Ok(())
    }

    /// Closes the session after the stream is destroyed and the drain wait
    /// has elapsed: the recorder returns to `Stopped` with its samples
    /// frozen in place.
    pub fn stop_finish(&mut self)
        requires
            old(self)@.wf(),
            old(self)@.state == RecordingState::Processing,
        ensures
            final(self)@ == stop_finish_next(old(self)@),
            final(self)@.wf(),
    {
        self.state = RecordingState::Stopped;
        proof {
            assert(self@ =~= stop_finish_next(old(self)@));
        }
    }

    /// Whether a session is currently active.
    pub fn is_recording(&self) -> (r: bool)
        ensures
            r == (self@.state == RecordingState::Recording),
    {
        self.state == RecordingState::Recording
    }

    /// The current lifecycle state.
    pub fn get_state(&self) -> (r: RecordingState)
        ensures
            r == self@.state,
    {
        self.state
    }

    /// How many samples (across all channels) the buffer holds. The session
    /// duration in seconds is this count divided by the channel count and
    /// the sample rate; it is zero exactly when the buffer is empty.
    pub fn sample_count(&self) -> (r: usize)
        ensures
            r == self@.samples.len(),
    {
        self.samples.len()
    }

    /// The configured channel count.
    pub fn channels(&self) -> (r: u16)
        ensures
            r == self@.channels,
    {
        self.channels
    }

    /// The configured sample rate in Hz.
    pub fn sample_rate(&self) -> (r: u32)
        ensures
            r == self@.sample_rate,
    {
        self.sample_rate
    }

    /// Serializes the captured samples into an in-memory container, exactly
    /// the bytes `wav::wav_bytes` describes for this recorder's
    /// configuration. Fails with `EmptyData` when nothing was captured, and
    /// with `EncodeFailure` when the buffer cannot form a well-formed
    /// container: a sample count that is not a whole number of frames, or a
    /// payload too large for the container's 32-bit size fields.
    pub fn get_audio_bytes(&self) -> (r: Result<Vec<u8>, RecorderError>)
        requires
            self@.wf(),
        ensures
            self@.samples.len() == 0 ==> r == Err::<Vec<u8>, RecorderError>(
                RecorderError::EmptyData,
            ),
            self@.samples.len() > 0 && (self@.samples.len() as int) % (self@.channels as int) != 0 ==> r
                == Err::<Vec<u8>, RecorderError>(RecorderError::EncodeFailure),
            self@.samples.len() > 0 && (self@.samples.len() as int) % (self@.channels as int) == 0 && 4 * (
            self@.samples.len() as int) + 60 > 0xffff_ffff ==> r == Err::<Vec<u8>, RecorderError>(
                RecorderError::EncodeFailure,
            ),
            self@.samples.len() > 0 && (self@.samples.len() as int) % (self@.channels as int) == 0 && 4 * (
            self@.samples.len() as int) + 60 <= 0xffff_ffff ==> (r matches Ok(bytes) && bytes@
                == wav::wav_bytes(self@.samples, self@.channels, self@.sample_rate)),
    {
        if self.samples.len() == 0 {
            return Err(RecorderError::EmptyData);
        }
        if self.samples.len() % (self.channels as usize) != 0 {
            return Err(RecorderError::EncodeFailure);
        }
        if self.samples.len() > (0xffff_ffffusize - 60) / 4 {
            return Err(RecorderError::EncodeFailure);
        }
        Ok(wav::encode_wav(&self.samples, self.channels, self.sample_rate))
    }
}

/// Every freshly constructed recorder is idle: it is `Stopped`, reports no
/// active session, holds no stream, and holds no samples — so the derived
/// duration (sample count over channel count and rate) is exactly zero. The
/// same holds directly after a session has legally begun, before any
/// delivery.
pub proof fn lemma_new_recorder_is_idle(sample_rate: u32, channels: u16)
    ensures
        initial(sample_rate, channels).state == RecordingState::Stopped,
        !initial(sample_rate, channels).stream_open,
        initial(sample_rate, channels).samples.len() == 0,
        start_begin_next(initial(sample_rate, channels)).samples.len() == 0,
{
}

/// A `start` issued while a session is active or being processed is
/// rejected and changes nothing: in particular the running session's buffer
/// is not cleared again.
pub proof fn lemma_start_while_active_rejected(m: RecorderModel)
    requires
        m.state != RecordingState::Stopped,
    ensures
        !can_start(m),
        start_begin_next(m) == m,
{
}

/// A `stop` issued while no session is active is rejected and alters
/// neither the state nor the sample buffer.
pub proof fn lemma_stop_while_inactive_rejected(m: RecorderModel)
    requires
        m.state != RecordingState::Recording,
    ensures
        !can_stop(m),
        stop_begin_next(m) == m,
{
}

/// A `start` that fails after it legally began — no input device, a failed
/// capability query, a stream that would not open — leaves the recorder
/// exactly as it entered: still `Stopped`, never `Recording`, holding no
/// stream, because the state only advances when `start_commit` reports an
/// open stream.
pub proof fn lemma_failed_start_leaves_stopped(m: RecorderModel)
    requires
        m.state == RecordingState::Stopped,
    ensures
        start_begin_next(m).state == RecordingState::Stopped,
        start_begin_next(m).stream_open == m.stream_open,
{
}

/// A callback invocation whose state check runs after `stop` has flipped
/// the state to `Processing` discards its buffer entirely: no sample is
/// appended after the logical stop point.
pub proof fn lemma_late_callback_discarded(m: RecorderModel, data: Seq<u32>)
    requires
        m.state == RecordingState::Processing,
    ensures
        deliver_next(m, data) == m,
{
}

/// A complete session — start, two deliveries while recording, stop —
/// leaves the recorder `Stopped` holding exactly the concatenation of the
/// delivered buffers: the duration numerator is precisely the number of
/// samples delivered during the session.
pub proof fn lemma_session_collects_all_samples(
    m: RecorderModel,
    first: Seq<u32>,
    second: Seq<u32>,
)
    requires
        m.state == RecordingState::Stopped,
    ensures
        ({
            let done = stop_finish_next(
                stop_begin_next(
                    deliver_next(deliver_next(start_commit_next(start_begin_next(m)), first), second),
                ),
            );
            &&& done.samples == first + second
            &&& done.samples.len() == first.len() + second.len()
            &&& done.state == RecordingState::Stopped
            &&& done.sample_rate == m.sample_rate
            &&& done.channels == m.channels
        }),
{
    assert(Seq::<u32>::empty() + first + second =~= first + second);
}

} // verus!
