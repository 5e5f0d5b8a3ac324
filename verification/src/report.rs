//! The uniform result records handed back to the user-interface layer.
//!
//! Every outcome of a transcription request, expected failures included,
//! becomes a `TranscriptionResult`; a model-presence query becomes a
//! `ModelStatus`. Neither record ever carries a panic upward.

use vstd::prelude::*;

verus! {

/// Outcome of one transcription request.
///
/// Invariant: a successful result carries no error message, and an
/// unsuccessful result carries no text.
pub struct TranscriptionResult {
    pub text: String,
    pub success: bool,
    pub error: Option<String>,
}

impl TranscriptionResult {
    /// The record's invariant: `success` excludes an error message,
    /// failure excludes text.
    pub open spec fn wf(self) -> bool {
        &&& (self.success ==> self.error is None)
        &&& (!self.success ==> self.text@.len() == 0)
    }

    /// A successful result carrying the recognized text.
    pub fn ok(text: String) -> (r: Self)
        ensures
            r.wf(),
            r.success,
            r.text@ == text@,
            r.error is None,
    {
        TranscriptionResult { text, success: true, error: None }
    }

    /// An expected failure, reported as a value rather than a panic.
    pub fn failure(message: String) -> (r: Self)
        ensures
            r.wf(),
            !r.success,
            r.text@.len() == 0,
            r.error matches Some(m) && m@ == message@,
    {
        TranscriptionResult { text: String::new(), success: false, error: Some(message) }
    }
}

/// Whether the recognition model file is present, and if so where.
///
/// Invariant: the path is reported exactly when the model is installed.
pub struct ModelStatus {
    pub installed: bool,
    pub path: Option<String>,
}

impl ModelStatus {
    /// The record's invariant: a path is carried iff the model is installed.
    pub open spec fn wf(self) -> bool {
        self.installed <==> self.path is Some
    }
}

} // verus!
