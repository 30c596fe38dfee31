use tjvox::config::{Config, WhisperMode};
use tjvox::daemon::{Action, Daemon, DaemonState};
use tjvox::error::TjvoxError;
use tjvox::messages::GuiMsg;
use tjvox::ptt::PttEvent;
use tjvox::replacements::ReplacementEngine;
use tjvox::socket::{parse_command, SocketCommand};

fn fresh_daemon() -> Daemon {
    Daemon::new(Config::default(), None, false, false)
}

#[test]
fn test_daemon_state_display() {
    assert_eq!(DaemonState::Idle.name(), "idle");
    assert_eq!(DaemonState::Recording.name(), "recording");
    assert_eq!(DaemonState::Transcribing.name(), "transcribing");
    assert_eq!(DaemonState::Typing.name(), "typing");
}

#[test]
fn test_daemon_state_clone() {
    let state = DaemonState::Recording;
    let cloned = state.clone();
    assert_eq!(state, cloned);
}

#[test]
fn test_daemon_state_equality() {
    assert_eq!(DaemonState::Idle, DaemonState::Idle);
    assert_ne!(DaemonState::Idle, DaemonState::Recording);
    assert_ne!(DaemonState::Recording, DaemonState::Transcribing);
    assert_ne!(DaemonState::Transcribing, DaemonState::Typing);
}

#[test]
fn toggle_from_idle_enters_recording() {
    let mut d = fresh_daemon();
    let actions = d.handle_toggle();
    assert_eq!(d.state, DaemonState::Recording);
    assert!(matches!(actions[1], Action::StartCapture { session_id: 0 }));
}

#[test]
fn toggle_while_recording_goes_to_transcribing_never_back() {
    let mut d = fresh_daemon();
    d.handle_toggle();
    assert_eq!(d.state, DaemonState::Recording);
    let actions = d.handle_toggle();
    assert_eq!(d.state, DaemonState::Transcribing);
    assert!(actions.iter().any(|a| matches!(a, Action::StopCapture)));
    assert!(!actions.iter().any(|a| matches!(a, Action::StartCapture { .. })));
}

#[test]
fn toggle_during_transcribing_and_typing_is_ignored() {
    let mut d = fresh_daemon();
    d.handle_toggle();
    d.handle_toggle();
    assert_eq!(d.state, DaemonState::Transcribing);
    let actions = d.handle_toggle();
    assert_eq!(d.state, DaemonState::Transcribing);
    assert!(actions.is_empty());
}

#[test]
fn push_start_while_recording_creates_no_new_session() {
    let mut d = fresh_daemon();
    d.handle_push_start();
    assert_eq!(d.state, DaemonState::Recording);
    let session = d.session;
    let next = d.next_session_id;
    let actions = d.handle_push_start();
    assert_eq!(d.state, DaemonState::Recording);
    assert_eq!(d.session, session);
    assert_eq!(d.next_session_id, next);
    assert!(actions.is_empty());
}

#[test]
fn push_stop_while_idle_changes_nothing() {
    let mut d = fresh_daemon();
    let actions = d.handle_push_stop();
    assert_eq!(d.state, DaemonState::Idle);
    assert_eq!(d.session, None);
    assert!(actions.is_empty());
}

#[test]
fn session_ids_are_never_reused() {
    let mut d = fresh_daemon();
    d.handle_toggle();
    let first = d.session.unwrap();
    d.handle_toggle();
    d.handle_transcription_result(Ok(String::new()), 100);
    assert_eq!(d.state, DaemonState::Idle);
    d.handle_toggle();
    let second = d.session.unwrap();
    assert_ne!(first, second);
    assert!(second > first);
}

#[test]
fn scenario_push_silence_ends_idle_without_injection() {
    // push-start, two seconds of silent capture, push-stop, and an empty
    // transcript: the daemon returns to idle and neither injects nor saves.
    let mut d = Daemon::new(Config::default(), None, false, true);
    d.handle_push_start();
    assert_eq!(d.state, DaemonState::Recording);
    d.handle_push_stop();
    assert_eq!(d.state, DaemonState::Transcribing);
    let actions = d.handle_transcription_result(Ok("".to_string()), 2000);
    assert_eq!(d.state, DaemonState::Idle);
    assert!(!actions.iter().any(|a| matches!(a, Action::Inject(_))));
    assert!(!actions.iter().any(|a| matches!(a, Action::SaveHistory(_))));
    assert!(actions.iter().any(
        |a| matches!(a, Action::Notify(_, m) if m == "No speech detected"),
    ));
}

#[test]
fn scenario_toggle_toggle_replacement_before_injection() {
    // toggle, toggle, transcript "hello world" with the rule hello -> hi and
    // a trailing space configured: the injected text is "hi world ".
    let mut config = Config::default();
    config.output.append_trailing_space = true;
    let engine = ReplacementEngine::from_rules(vec![("hello".to_string(), "hi".to_string())]);
    let mut d = Daemon::new(config, Some(engine), false, false);
    d.handle_toggle();
    d.handle_toggle();
    assert_eq!(d.state, DaemonState::Transcribing);
    let actions = d.handle_transcription_result(Ok("hello world".to_string()), 1000);
    assert_eq!(d.state, DaemonState::Typing);
    match &actions[1] {
        Action::Inject(text) => assert_eq!(text, "hi world "),
        other => panic!("expected an injection, got {:?}", other),
    }
}

#[test]
fn status_twice_answers_ok_and_bogus_changes_nothing() {
    let mut d = fresh_daemon();
    let (first, actions1) = d.handle_socket_command(&SocketCommand::Status);
    assert!(first.starts_with("ok: "));
    assert!(actions1.is_empty());
    let (second, actions2) = d.handle_socket_command(&SocketCommand::Status);
    assert!(second.starts_with("ok: "));
    assert!(actions2.is_empty());
    assert_eq!(first, "ok: idle");
    assert_eq!(second, "ok: idle");

    // an unrecognized command never reaches the daemon: parsing rejects it
    let err = parse_command("bogus\n");
    assert!(err.is_err());
    assert_eq!(d.state, DaemonState::Idle);
    match err {
        Err(TjvoxError::Protocol(m)) => assert_eq!(m, "Unknown command: bogus"),
        other => panic!("expected a protocol error, got {:?}", other),
    }
}

#[test]
fn quit_command_answers_and_marks_quit() {
    let mut d = fresh_daemon();
    let (resp, actions) = d.handle_socket_command(&SocketCommand::Quit);
    assert_eq!(resp, "ok: quitting");
    assert!(actions.is_empty());
    assert!(d.should_quit);
    assert_eq!(d.state, DaemonState::Idle);
}

#[test]
fn socket_toggle_reports_new_state() {
    let mut d = fresh_daemon();
    let (resp, _) = d.handle_socket_command(&SocketCommand::Toggle);
    assert_eq!(resp, "ok: recording");
    let (resp, _) = d.handle_socket_command(&SocketCommand::PushStop);
    assert_eq!(resp, "ok: transcribing");
}

#[test]
fn injection_done_saves_history_and_returns_idle() {
    let mut config = Config::default();
    config.output.append_trailing_space = false;
    let mut d = Daemon::new(config, None, false, true);
    d.handle_toggle();
    d.handle_toggle();
    d.handle_transcription_result(Ok("words to keep".to_string()), 1234);
    assert_eq!(d.state, DaemonState::Typing);
    let actions = d.handle_injection_done(Ok(()));
    assert_eq!(d.state, DaemonState::Idle);
    assert_eq!(d.session, None);
    let entry = actions
        .iter()
        .find_map(|a| match a {
            Action::SaveHistory(e) => Some(e),
            _ => None,
        })
        .expect("a history entry should be saved");
    assert_eq!(entry.text, "words to keep");
    assert_eq!(entry.duration_ms, 1234);
    assert_eq!(entry.model, "base");
    assert_eq!(entry.language, "en");
}

#[test]
fn injection_failure_surfaces_and_cleans_up() {
    let mut d = fresh_daemon();
    d.handle_toggle();
    d.handle_toggle();
    d.handle_transcription_result(Ok("something".to_string()), 10);
    assert_eq!(d.state, DaemonState::Typing);
    let actions = d.handle_injection_done(Err(TjvoxError::Output("no tool".to_string())));
    assert_eq!(d.state, DaemonState::Idle);
    assert!(actions.iter().any(|a| matches!(a, Action::NotifyError(_, _))));
    assert!(actions.iter().any(|a| matches!(a, Action::CleanupSession)));
}

#[test]
fn transcription_failure_returns_to_idle() {
    let mut d = fresh_daemon();
    d.handle_toggle();
    d.handle_toggle();
    let actions = d.handle_transcription_result(
        Err(TjvoxError::Transcription("engine died".to_string())),
        10,
    );
    assert_eq!(d.state, DaemonState::Idle);
    assert!(actions.iter().any(|a| matches!(a, Action::CleanupSession)));
}

#[test]
fn capture_failure_returns_to_idle_and_allows_retry() {
    let mut d = fresh_daemon();
    d.handle_toggle();
    let actions = d.handle_capture_failed(&TjvoxError::Capture("no device".to_string()));
    assert_eq!(d.state, DaemonState::Idle);
    assert!(actions.iter().any(|a| matches!(a, Action::CleanupSession)));
    // the daemon keeps running and can start a new session
    d.handle_toggle();
    assert_eq!(d.state, DaemonState::Recording);
}

#[test]
fn correction_failure_falls_back_to_raw_text() {
    let mut config = Config::default();
    config.output.append_trailing_space = false;
    let mut d = Daemon::new(config, None, true, false);
    d.handle_toggle();
    d.handle_toggle();
    let actions = d.handle_transcription_result(Ok("raw words".to_string()), 5);
    assert_eq!(d.state, DaemonState::Transcribing);
    assert!(matches!(&actions[0], Action::RequestCorrection(t) if t == "raw words"));
    let actions = d.handle_correction_result(Err(TjvoxError::Llm("timeout".to_string())));
    assert_eq!(d.state, DaemonState::Typing);
    assert!(matches!(&actions[1], Action::Inject(t) if t == "raw words"));
}

#[test]
fn correction_success_is_used() {
    let mut config = Config::default();
    config.output.append_trailing_space = false;
    let mut d = Daemon::new(config, None, true, false);
    d.handle_toggle();
    d.handle_toggle();
    d.handle_transcription_result(Ok("raw words".to_string()), 5);
    let actions = d.handle_correction_result(Ok("Raw words.".to_string()));
    assert_eq!(d.state, DaemonState::Typing);
    assert!(matches!(&actions[1], Action::Inject(t) if t == "Raw words."));
}

#[test]
fn filler_words_are_removed_when_configured() {
    let mut config = Config::default();
    config.transcription.remove_filler_words = true;
    config.output.append_trailing_space = false;
    let d = Daemon::new(config, None, false, false);
    assert_eq!(d.post_process("so, uh, I think, um, this works"), "so, I think, this works");
    assert_eq!(d.post_process("um hello"), "hello");
}

#[test]
fn post_process_appends_trailing_space_only_to_text() {
    let mut config = Config::default();
    config.output.append_trailing_space = true;
    let d = Daemon::new(config, None, false, false);
    assert_eq!(d.post_process("hello"), "hello ");
    assert_eq!(d.post_process(""), "");
}

#[test]
fn gui_toggle_and_quit() {
    let mut d = fresh_daemon();
    d.handle_gui_msg(GuiMsg::ToggleRecording);
    assert_eq!(d.state, DaemonState::Recording);
    d.handle_gui_msg(GuiMsg::Quit);
    assert!(d.should_quit);
}

#[test]
fn ptt_events_drive_push_handlers() {
    let mut d = fresh_daemon();
    d.handle_ptt_event(PttEvent::KeyDown);
    assert_eq!(d.state, DaemonState::Recording);
    d.handle_ptt_event(PttEvent::KeyDown);
    assert_eq!(d.state, DaemonState::Recording);
    d.handle_ptt_event(PttEvent::KeyUp);
    assert_eq!(d.state, DaemonState::Transcribing);
}

#[test]
fn set_whisper_mode_hot_loads_model() {
    let mut d = fresh_daemon();
    let actions = d.set_whisper_mode(WhisperMode::Hot);
    assert_eq!(d.whisper_mode, WhisperMode::Hot);
    assert!(actions.iter().any(|a| matches!(a, Action::LoadModel)));
    d.handle_model_load_result(true);
    assert!(d.model_loaded);
    let actions = d.set_whisper_mode(WhisperMode::Cold);
    assert!(actions.iter().any(|a| matches!(a, Action::UnloadModel)));
    assert!(!d.model_loaded);
}

#[test]
fn set_model_switches_and_rejects_bad_names() {
    let mut d = fresh_daemon();
    let actions = d.set_model("base".to_string());
    assert!(actions.is_empty());
    let actions = d.set_model("small".to_string());
    assert_eq!(d.config.transcription.model, "small");
    assert!(actions.iter().any(|a| matches!(a, Action::BroadcastModelChanged(m) if m == "small")));
    let actions = d.set_model("../evil".to_string());
    assert!(actions.iter().any(|a| matches!(a, Action::NotifyError(_, _))));
}

#[test]
fn shutdown_stops_session_and_removes_pid_file() {
    let mut d = fresh_daemon();
    d.handle_toggle();
    let actions = d.shutdown();
    assert_eq!(d.state, DaemonState::Idle);
    assert!(d.should_quit);
    assert!(matches!(actions[0], Action::StopCapture));
    assert!(matches!(actions[1], Action::CleanupSession));
    assert!(matches!(actions.last(), Some(Action::RemovePidFile)));
}

#[test]
fn startup_actions_announce_and_broadcast() {
    let d = fresh_daemon();
    let actions = d.startup_actions();
    assert!(matches!(&actions[0], Action::Notify(t, _) if t == "TJvox"));
    assert!(actions.iter().any(|a| matches!(a, Action::BroadcastWhisperMode(_))));
    assert!(actions.iter().any(|a| matches!(a, Action::BroadcastModelChanged(m) if m == "base")));
}
