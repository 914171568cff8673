use tts_subsystem::text::nul_position;
use tts_subsystem::{Command, ConnectionMode, Error, Lifecycle, Listing, Priority};

#[test]
fn priority_codes() {
    assert_eq!(Priority::Important.code(), 1);
    assert_eq!(Priority::Message.code(), 2);
    assert_eq!(Priority::Text.code(), 3);
    assert_eq!(Priority::Notification.code(), 4);
    assert_eq!(Priority::Progress.code(), 5);
}

#[test]
fn connection_mode_codes() {
    assert_eq!(ConnectionMode::Single.code(), 0);
    assert_eq!(ConnectionMode::Threaded.code(), 1);
}

#[test]
fn speaking_commands_fail_only_on_sentinel() {
    for c in [Command::Speak, Command::SpeakChar, Command::SpeakKey] {
        assert_eq!(c.outcome(-1), Err(Error::SpeechSynthError));
        assert_eq!(c.outcome(0), Ok(()));
        assert_eq!(c.outcome(3), Ok(()));
    }
}

#[test]
fn control_commands_map_to_their_errors() {
    assert_eq!(Command::Stop.outcome(-1), Err(Error::StopSpeechError));
    assert_eq!(Command::StopAll.outcome(-1), Err(Error::StopSpeechError));
    assert_eq!(Command::Pause.outcome(-1), Err(Error::TTSPauseResumeError));
    assert_eq!(Command::PauseAll.outcome(-1), Err(Error::TTSPauseResumeError));
    assert_eq!(Command::Resume.outcome(-1), Err(Error::TTSPauseResumeError));
    assert_eq!(Command::ResumeAll.outcome(-1), Err(Error::TTSPauseResumeError));
    assert_eq!(Command::Cancel.outcome(-1), Err(Error::SpeechCancelationError));
    assert_eq!(Command::CancelAll.outcome(-1), Err(Error::SpeechCancelationError));
    assert_eq!(Command::Stop.outcome(0), Ok(()));
    assert_eq!(Command::CancelAll.outcome(0), Ok(()));
}

#[test]
fn parameter_setters_map_to_synth_param_error() {
    for c in [
        Command::SetRate,
        Command::SetVolume,
        Command::SetPitch,
        Command::SetPitchRange,
    ] {
        assert_eq!(c.error_kind(), Error::SynthParamError);
        assert_eq!(c.outcome(-1), Err(Error::SynthParamError));
        assert_eq!(c.outcome(0), Ok(()));
    }
}

#[test]
fn listing_fails_on_null_array() {
    assert_eq!(Listing::OutputModules.outcome(false), Err(Error::ListModulesError));
    assert_eq!(
        Listing::SynthesisVoices.outcome(false),
        Err(Error::ListSynthesisVoicesError)
    );
    assert_eq!(Listing::OutputModules.outcome(true), Ok(()));
    assert_eq!(Listing::SynthesisVoices.outcome(true), Ok(()));
}

#[test]
fn open_without_handle_is_init_error() {
    assert!(matches!(Lifecycle::open(false), Err(Error::InitError)));
}

#[test]
fn handle_is_released_exactly_once() {
    let mut life = Lifecycle::open(true).ok().unwrap();
    assert!(life.is_open());
    let mut closes = 0;
    for _ in 0..3 {
        if life.release() {
            closes += 1;
        }
    }
    assert_eq!(closes, 1);
    assert!(!life.is_open());
}

#[test]
fn tester_name_is_valid_and_embedded_nul_is_not() {
    assert_eq!(nul_position("tester"), None);
    assert_eq!(nul_position("tes\0ter"), Some(3));
}
