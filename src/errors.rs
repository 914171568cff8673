use vstd::prelude::*;

verus! {

/// The failure kinds surfaced to callers, one per category of native failure.
#[derive(Debug, Clone, Copy, PartialEq, Eq, Structural)]
#[non_exhaustive]
pub enum Error {
    InitError,
    SpeechSynthError,
    StopSpeechError,
    SpeechCancelationError,
    TTSPauseResumeError,
    SynthParamError,
    ListModulesError,
    ListSynthesisVoicesError,
    Unknown,
}

/// The status value by which the native API signals that a call failed.
pub const FAILURE_SENTINEL: i32 = -1;

/// The result of a native call that reports `status`, failing with `kind`.
pub open spec fn status_result(status: i32, kind: Error) -> Result<(), Error> {
    if status == FAILURE_SENTINEL {
        Err(kind)
    } else {
        Ok(())
    }
}

/// Maps a native status code to a typed result: the failure sentinel becomes
/// `Err(kind)`, every other value is success.
pub fn check_status(status: i32, kind: Error) -> (r: Result<(), Error>)
    ensures
        r == status_result(status, kind),
{
    if status == FAILURE_SENTINEL {
        Err(kind)
    } else {
        Ok(())
    }
}

/// The human-readable message of each error kind.
pub open spec fn message_of(e: Error) -> Seq<char> {
    match e {
        Error::InitError => "unable to initialise speech dispatcher"@,
        Error::SpeechSynthError => "error synthesizing text"@,
        Error::StopSpeechError =>
            "unable to stop currently spoken message. Perhaps there's no message being spoken?"@,
        Error::SpeechCancelationError => "unable to cancel speech"@,
        Error::TTSPauseResumeError => "error pausing or resuming speech"@,
        Error::SynthParamError => "problems setting a speech param"@,
        Error::ListModulesError => "unable to list output modules"@,
        Error::ListSynthesisVoicesError => "unable to list synthesis voices"@,
        Error::Unknown => "a weird unknown error"@,
    }
}

impl Error {
    /// The message that describes this error to a user.
    pub fn message(&self) -> (r: &'static str)
        ensures
            r@ == message_of(*self),
    {
        match self {
            Error::InitError => "unable to initialise speech dispatcher",
            Error::SpeechSynthError => "error synthesizing text",
            Error::StopSpeechError =>
                "unable to stop currently spoken message. Perhaps there's no message being spoken?",
            Error::SpeechCancelationError => "unable to cancel speech",
            Error::TTSPauseResumeError => "error pausing or resuming speech",
            Error::SynthParamError => "problems setting a speech param",
            Error::ListModulesError => "unable to list output modules",
            Error::ListSynthesisVoicesError => "unable to list synthesis voices",
            Error::Unknown => "a weird unknown error",
        }
    }
}

} // verus!
