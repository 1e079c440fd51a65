//! The speech-to-text collaborator. Transcription itself is an opaque
//! external service; the library only tracks which model a transcriber was
//! built for and whether that model has been brought into memory, which is
//! the state the loading path decides on.

use vstd::prelude::*;

verus! {

/// The mathematical state of a transcriber.
#[verifier::ext_equal]
pub ghost struct TranscriberModel {
    pub model_size: Seq<char>,
    pub loaded: bool,
}

/// A transcriber bound to one model identifier.
pub struct WhisperTranscriber {
    model_size: String,
    loaded: bool,
}

impl View for WhisperTranscriber {
    type V = TranscriberModel;

    closed spec fn view(&self) -> TranscriberModel {
        TranscriberModel { model_size: self.model_size@, loaded: self.loaded }
    }
}

impl WhisperTranscriber {
    /// A transcriber for the given model identifier; nothing is loaded yet.
    pub fn new(model_size: String) -> (r: WhisperTranscriber)
        ensures
            r@.model_size == model_size@,
            !r@.loaded,
    {
        WhisperTranscriber { model_size, loaded: false }
    }

    /// A transcriber for the base model.
    pub fn default() -> (r: WhisperTranscriber)
        ensures
            r@.model_size == "base"@,
            !r@.loaded,
    {
        WhisperTranscriber::new("base".to_owned())
    }

    /// Records that the model has been brought into memory. Loading an
    /// already loaded transcriber changes nothing.
    pub fn mark_loaded(&mut self)
        ensures
            final(self)@.loaded,
            final(self)@.model_size == old(self)@.model_size,
    {
        self.loaded = true;
    }

    /// Whether the model is in memory.
    pub fn is_loaded(&self) -> (r: bool)
        ensures
            r == self@.loaded,
    {
        self.loaded
    }

    /// The model identifier this transcriber was built for.
    pub fn model_size(&self) -> (r: &String)
        ensures
            r@ == self@.model_size,
    {
        &self.model_size
    }
}

} // verus!
