use vstd::prelude::*;

verus! {

/// The stage of a speak operation at which it failed.
#[derive(Clone, Copy, Debug, PartialEq, Eq, Structural)]
pub enum ErrorKind {
    /// The host did not provide a synthesis engine instance.
    EngineUnavailable,
    /// The text-to-speech conversion failed or was rejected.
    SynthesisFailed,
    /// The synthesized stream could not be turned into a playable source.
    SourceConstructionFailed,
    /// The player could not be prepared or could not begin playback.
    PlaybackStartFailed,
    /// The completion handler could not be unregistered after playback.
    CleanupFailed,
    /// The caller abandoned the operation before it completed.
    Interrupted,
}

/// A failed speak operation: what failed, and the host's own description of it.
#[derive(Clone, Debug, PartialEq, Eq)]
pub struct SpeechError {
    pub kind: ErrorKind,
    /// The host's description, where the host gave one.
    pub detail: Option<String>,
}

/// The marker that names each kind in caller-facing messages.
pub open spec fn kind_marker(k: ErrorKind) -> Seq<char> {
    match k {
        ErrorKind::EngineUnavailable => "EngineUnavailable"@,
        ErrorKind::SynthesisFailed => "SynthesisFailed"@,
        ErrorKind::SourceConstructionFailed => "SourceConstructionFailed"@,
        ErrorKind::PlaybackStartFailed => "PlaybackStartFailed"@,
        ErrorKind::CleanupFailed => "CleanupFailed"@,
        ErrorKind::Interrupted => "Interrupted"@,
    }
}

/// The human-readable description of a failure: its marker, then the host's
/// detail where there is one.
pub open spec fn description_of(e: SpeechError) -> Seq<char> {
    match e.detail {
        Some(d) => kind_marker(e.kind) + ": "@ + d@,
        None => kind_marker(e.kind),
    }
}

/// The message that the command boundary hands to its caller for a failure.
pub open spec fn failure_message(e: SpeechError) -> Seq<char> {
    "failed to do speak: "@ + description_of(e)
}

impl ErrorKind {
    /// The marker of this kind, as text.
    pub fn marker(&self) -> (r: String)
        ensures
            r@ == kind_marker(*self),
    {
        match self {
            ErrorKind::EngineUnavailable => String::from_str("EngineUnavailable"),
            ErrorKind::SynthesisFailed => String::from_str("SynthesisFailed"),
            ErrorKind::SourceConstructionFailed => String::from_str("SourceConstructionFailed"),
            ErrorKind::PlaybackStartFailed => String::from_str("PlaybackStartFailed"),
            ErrorKind::CleanupFailed => String::from_str("CleanupFailed"),
            ErrorKind::Interrupted => String::from_str("Interrupted"),
        }
    }
}

impl SpeechError {
    pub fn new(kind: ErrorKind, detail: Option<String>) -> (r: SpeechError)
        ensures
            r.kind == kind,
            r.detail == detail,
    {
        SpeechError { kind, detail }
    }

    /// The marker of the kind, then the host's detail where there is one.
    pub fn describe(&self) -> (r: String)
        ensures
            r@ == description_of(*self),
    {
        let m = self.kind.marker();
        match &self.detail {
            Some(d) => m.concat(": ").concat(d.as_str()),
            None => m,
        }
    }
}

/// The command boundary: success passes through, a failure becomes a message
/// that describes it.
pub fn speak_response(outcome: Result<(), SpeechError>) -> (r: Result<(), String>)
    ensures
        outcome is Ok ==> r is Ok,
        outcome matches Err(e) ==> r matches Err(m) && m@ == failure_message(e),
{
    match outcome {
        Ok(()) => Ok(()),
        Err(e) => {
            let d = e.describe();
            let m = String::from_str("failed to do speak: ");
            Err(m.concat(d.as_str()))
        },
    }
}

} // verus!
