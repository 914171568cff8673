use vstd::prelude::*;

use crate::errors::{check_status, status_result, Error};

verus! {

/// Native value of `SPD_MODE_SINGLE`.
pub const MODE_SINGLE_CODE: u32 = 0;

/// Native value of `SPD_MODE_THREADED`.
pub const MODE_THREADED_CODE: u32 = 1;

/// Native value of `SPD_IMPORTANT`.
pub const IMPORTANT_CODE: u32 = 1;

/// Native value of `SPD_MESSAGE`.
pub const MESSAGE_CODE: u32 = 2;

/// Native value of `SPD_TEXT`.
pub const TEXT_CODE: u32 = 3;

/// Native value of `SPD_NOTIFICATION`.
pub const NOTIFICATION_CODE: u32 = 4;

/// Native value of `SPD_PROGRESS`.
pub const PROGRESS_CODE: u32 = 5;

/// Concurrency mode of a native session, chosen once when it is opened.
#[derive(Clone, Copy, Debug, PartialEq, Eq, Structural)]
pub enum ConnectionMode {
    Single,
    Threaded,
}

pub open spec fn mode_code(m: ConnectionMode) -> u32 {
    match m {
        ConnectionMode::Single => MODE_SINGLE_CODE,
        ConnectionMode::Threaded => MODE_THREADED_CODE,
    }
}

impl ConnectionMode {
    /// The native constant for this mode.
    pub fn code(self) -> (r: u32)
        ensures
            r == mode_code(self),
    {
        match self {
            ConnectionMode::Single => MODE_SINGLE_CODE,
            ConnectionMode::Threaded => MODE_THREADED_CODE,
        }
    }
}

/// Queuing class of a speech request; the dispatcher owns the ordering policy.
#[derive(Clone, Copy, Debug, PartialEq, Eq, Structural)]
pub enum Priority {
    Important,
    Message,
    Notification,
    Progress,
    Text,
}

pub open spec fn priority_code(p: Priority) -> u32 {
    match p {
        Priority::Important => IMPORTANT_CODE,
        Priority::Message => MESSAGE_CODE,
        Priority::Notification => NOTIFICATION_CODE,
        Priority::Progress => PROGRESS_CODE,
        Priority::Text => TEXT_CODE,
    }
}

impl Priority {
    /// The native constant for this priority.
    pub fn code(self) -> (r: u32)
        ensures
            r == priority_code(self),
    {
        match self {
            Priority::Important => IMPORTANT_CODE,
            Priority::Message => MESSAGE_CODE,
            Priority::Notification => NOTIFICATION_CODE,
            Priority::Progress => PROGRESS_CODE,
            Priority::Text => TEXT_CODE,
        }
    }
}

/// Distinct priorities map to distinct native constants, so the mapping loses
/// no information.
pub proof fn lemma_priority_codes_distinct(p: Priority, q: Priority)
    ensures
        priority_code(p) == priority_code(q) <==> p == q,
{
}

/// A native command that reports success or failure by a status code.
#[derive(Clone, Copy, Debug, PartialEq, Eq, Structural)]
pub enum Command {
    Speak,
    SpeakChar,
    SpeakKey,
    Stop,
    StopAll,
    Pause,
    PauseAll,
    Resume,
    ResumeAll,
    Cancel,
    CancelAll,
    SetRate,
    SetVolume,
    SetPitch,
    SetPitchRange,
}

/// The error kind that a failure of each command is reported as.
pub open spec fn command_error(c: Command) -> Error {
    match c {
        Command::Speak | Command::SpeakChar | Command::SpeakKey => Error::SpeechSynthError,
        Command::Stop | Command::StopAll => Error::StopSpeechError,
        Command::Pause
        | Command::PauseAll
        | Command::Resume
        | Command::ResumeAll => Error::TTSPauseResumeError,
        Command::Cancel | Command::CancelAll => Error::SpeechCancelationError,
        Command::SetRate
        | Command::SetVolume
        | Command::SetPitch
        | Command::SetPitchRange => Error::SynthParamError,
    }
}

impl Command {
    /// The error kind that a failure of this command is reported as.
    pub fn error_kind(self) -> (r: Error)
        ensures
            r == command_error(self),
    {
        match self {
            Command::Speak | Command::SpeakChar | Command::SpeakKey => Error::SpeechSynthError,
            Command::Stop | Command::StopAll => Error::StopSpeechError,
            Command::Pause
            | Command::PauseAll
            | Command::Resume
            | Command::ResumeAll => Error::TTSPauseResumeError,
            Command::Cancel | Command::CancelAll => Error::SpeechCancelationError,
            Command::SetRate
            | Command::SetVolume
            | Command::SetPitch
            | Command::SetPitchRange => Error::SynthParamError,
        }
    }

    /// The result of this command given the status that the native call
    /// returned.
    pub fn outcome(self, status: i32) -> (r: Result<(), Error>)
        ensures
            r == status_result(status, command_error(self)),
    {
        check_status(status, self.error_kind())
    }
}

/// Each of the three speaking commands fails with `SpeechSynthError` exactly
/// when the native call returns the failure sentinel, and succeeds otherwise.
pub proof fn lemma_speech_fails_only_on_sentinel(c: Command, status: i32)
    requires
        c == Command::Speak || c == Command::SpeakChar || c == Command::SpeakKey,
    ensures
        status_result(status, command_error(c)) == (if status == -1 {
            Err(Error::SpeechSynthError)
        } else {
            Ok::<(), Error>(())
        }),
{
}

/// A native request that answers with an array, or with null on failure.
#[derive(Clone, Copy, Debug, PartialEq, Eq, Structural)]
pub enum Listing {
    OutputModules,
    SynthesisVoices,
}

pub open spec fn listing_error(l: Listing) -> Error {
    match l {
        Listing::OutputModules => Error::ListModulesError,
        Listing::SynthesisVoices => Error::ListSynthesisVoicesError,
    }
}

impl Listing {
    /// The result of this request given whether the native call returned an
    /// array (`true`) or null (`false`).
    pub fn outcome(self, array_returned: bool) -> (r: Result<(), Error>)
        ensures
            array_returned ==> r is Ok,
            !array_returned ==> r == Err::<(), Error>(listing_error(self)),
    {
        if array_returned {
            Ok(())
        } else {
            match self {
                Listing::OutputModules => Err(Error::ListModulesError),
                Listing::SynthesisVoices => Err(Error::ListSynthesisVoicesError),
            }
        }
    }
}

/// Ownership state of one native connection handle: open from a successful
/// open until it is released, and released at most once.
pub struct Lifecycle {
    open: bool,
}

impl View for Lifecycle {
    type V = bool;

    closed spec fn view(&self) -> bool {
        self.open
    }
}

/// How many native close calls `k` successive releases make, starting from a
/// handle that is open (`open`) or already released.
pub open spec fn closes_over(open: bool, k: nat) -> nat
    decreases k,
{
    if k == 0 {
        0
    } else {
        (if open {
            1nat
        } else {
            0nat
        }) + closes_over(false, (k - 1) as nat)
    }
}

impl Lifecycle {
    /// The state after the native open call: an open handle when it returned
    /// one, `InitError` when it returned null. No partial state is produced.
    pub fn open(handle_returned: bool) -> (r: Result<Lifecycle, Error>)
        ensures
            handle_returned <==> r is Ok,
            r matches Ok(l) ==> l@,
            r matches Err(e) ==> e == Error::InitError,
    {
        if handle_returned {
            Ok(Lifecycle { open: true })
        } else {
            Err(Error::InitError)
        }
    }

    pub fn is_open(&self) -> (r: bool)
        ensures
            r == self@,
    {
        self.open
    }

    /// Marks the handle released. Returns whether the caller must now make the
    /// native close call: true on the first release only.
    pub fn release(&mut self) -> (close_now: bool)
        ensures
            close_now == old(self)@,
            !final(self)@,
    {
        let close_now = self.open;
        self.open = false;
        close_now
    }
}

/// A handle that was opened is closed exactly once over any positive number of
/// releases: the first closes it, the later ones do nothing.
pub proof fn lemma_closed_exactly_once(k: nat)
    requires
        k >= 1,
    ensures
        closes_over(true, k) == 1,
{
    lemma_no_close_after_release(k);
    assert(closes_over(true, k) == 1 + closes_over(false, (k - 1) as nat));
    lemma_no_close_after_release((k - 1) as nat);
}

/// A released handle is never closed again.
pub proof fn lemma_no_close_after_release(k: nat)
    ensures
        closes_over(false, k) == 0,
    decreases k,
{
    if k > 0 {
        lemma_no_close_after_release((k - 1) as nat);
    }
}

} // verus!
