//! Application-level events broadcast to the UI layer.

use vstd::prelude::*;

verus! {

/// A named signal raised towards the UI layer, fire-and-forget.
/// The wire names returned by [`AppEvent::name`] are part of the external
/// contract and must not change.
#[derive(Clone, Copy, PartialEq, Eq, Structural, Debug)]
pub enum AppEvent {
    /// The classifier crossed the detection threshold on one frame.
    WakeWordDetected,
    /// The machine woke from sleep and the pipeline was restarted.
    ResumeDetected,
    /// The user asked for a transcription session from the tray menu.
    StartTranscription,
}

impl AppEvent {
    /// The event's wire name, as the UI layer subscribes to it.
    pub fn name(&self) -> (r: &'static str)
        ensures
            *self is WakeWordDetected ==> r@ == "wake-word-detected"@,
            *self is ResumeDetected ==> r@ == "resume-detected"@,
            *self is StartTranscription ==> r@ == "start-transcription"@,
    {
        match self {
            AppEvent::WakeWordDetected => "wake-word-detected",
            AppEvent::ResumeDetected => "resume-detected",
            AppEvent::StartTranscription => "start-transcription",
        }
    }
}

} // verus!
