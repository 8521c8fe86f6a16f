use std::path::PathBuf;

use flycheck::config::{Arg, FlycheckConfig, Program};
use flycheck::message::{decode_line, event_for, BuildMessage, CheckEvent};
use flycheck::runner::{RunError, StreamReader};
use flycheck::supervisor::{CheckCommand, CheckTask, Effect, Stimulus, Supervisor};

const DIAGNOSTIC_LINE: &str = "{\"reason\":\"compiler-message\",\"package_id\":\"foo 0.1.0 (path+file:///foo)\",\"target\":{\"name\":\"foo\",\"kind\":[\"lib\"],\"src_path\":\"/foo/src/lib.rs\"},\"message\":{\"message\":\"unused variable: `x`\",\"code\":null,\"level\":\"warning\",\"spans\":[],\"children\":[],\"rendered\":null}}\n";

fn cargo_check() -> FlycheckConfig {
    FlycheckConfig::CargoCommand {
        command: "check".to_string(),
        all_targets: false,
        all_features: false,
        features: vec![],
        extra_args: vec![],
    }
}

fn texts(words: &[&str]) -> Vec<Arg> {
    words.iter().map(|w| Arg::Text(w.to_string())).collect()
}

fn cargo_args(options: &[&str]) -> Vec<Arg> {
    let mut args = texts(&["check", "--workspace", "--message-format=json", "--manifest-path"]);
    args.push(Arg::ManifestPath);
    args.extend(texts(options));
    args
}

fn diagnostic_message() -> BuildMessage {
    decode_line(DIAGNOSTIC_LINE.as_bytes()).unwrap()
}

fn artifact(name: &str, fresh: bool) -> BuildMessage {
    BuildMessage::CompilerArtifact { target_name: name.to_string(), fresh }
}

fn kinds(effects: &[Effect]) -> Vec<&'static str> {
    effects
        .iter()
        .map(|e| match e {
            Effect::Task(CheckTask::ClearDiagnostics) => "clear",
            Effect::Task(CheckTask::AddDiagnostic { .. }) => "add",
            Effect::BeginProgress => "begin",
            Effect::ReportProgress(_) => "report",
            Effect::EndProgress => "end",
            Effect::StopRun => "stop",
            Effect::StartRun(_) => "start",
            Effect::Exit => "exit",
        })
        .collect()
}

fn supervisor() -> Supervisor {
    Supervisor::new(cargo_check(), PathBuf::from("/ws"))
}

#[test]
fn describe_cargo_command() {
    assert_eq!(cargo_check().describe(), "cargo check");
}

#[test]
fn describe_custom_command() {
    let config = FlycheckConfig::CustomCommand {
        command: "my-check".to_string(),
        args: vec!["--json".to_string(), "all".to_string()],
    };
    assert_eq!(config.describe(), "my-check --json all");
}

#[test]
fn invocation_of_plain_cargo_check() {
    let inv = cargo_check().invocation();
    assert_eq!(inv.program, Program::Cargo);
    assert_eq!(inv.args, cargo_args(&[]));
}

#[test]
fn invocation_with_all_targets_and_all_features_ignores_feature_list() {
    let config = FlycheckConfig::CargoCommand {
        command: "check".to_string(),
        all_targets: true,
        all_features: true,
        features: vec!["a".to_string()],
        extra_args: vec!["-q".to_string()],
    };
    assert_eq!(config.invocation().args, cargo_args(&["--all-targets", "--all-features", "-q"]));
}

#[test]
fn invocation_joins_features_with_spaces() {
    let config = FlycheckConfig::CargoCommand {
        command: "check".to_string(),
        all_targets: false,
        all_features: false,
        features: vec!["a".to_string(), "b".to_string()],
        extra_args: vec!["--".to_string(), "-W".to_string()],
    };
    assert_eq!(config.invocation().args, cargo_args(&["--features", "a b", "--", "-W"]));
}

#[test]
fn invocation_of_custom_command() {
    let config = FlycheckConfig::CustomCommand {
        command: "/bin/check".to_string(),
        args: vec!["x".to_string(), "y".to_string()],
    };
    let inv = config.invocation();
    assert_eq!(inv.program, Program::Named("/bin/check".to_string()));
    assert_eq!(inv.args, texts(&["x", "y"]));
}

#[test]
fn decodes_compiler_message() {
    match diagnostic_message() {
        BuildMessage::CompilerMessage(d) => assert_eq!(d.message, "unused variable: `x`"),
        other => panic!("unexpected {:?}", other),
    }
}

#[test]
fn decodes_text_and_unknown_and_finished() {
    match decode_line(b"Compiling foo\n") {
        Some(BuildMessage::TextLine(t)) => assert_eq!(t, "Compiling foo"),
        other => panic!("unexpected {:?}", other),
    }
    assert!(matches!(
        decode_line(b"{\"reason\":\"something-new\"}\n"),
        Some(BuildMessage::Unknown)
    ));
    assert!(matches!(
        decode_line(b"{\"reason\":\"build-finished\",\"success\":false}\n"),
        Some(BuildMessage::BuildFinished { success: false })
    ));
}

#[test]
fn line_that_is_not_utf8_does_not_decode() {
    assert!(decode_line(&[0xff, 0xfe, b'\n']).is_none());
}

#[test]
fn bridge_forwards_only_useful_messages() {
    assert!(event_for(artifact("foo", true)).is_none());
    assert!(event_for(BuildMessage::BuildScriptExecuted).is_none());
    assert!(event_for(BuildMessage::Unknown).is_none());
    assert!(matches!(event_for(artifact("foo", false)), Some(CheckEvent::Msg(_))));
    assert!(matches!(event_for(diagnostic_message()), Some(CheckEvent::Msg(_))));
    assert!(matches!(
        event_for(BuildMessage::TextLine("x".to_string())),
        Some(CheckEvent::Msg(_))
    ));
    assert!(matches!(
        event_for(BuildMessage::BuildFinished { success: true }),
        Some(CheckEvent::Msg(_))
    ));
}

#[test]
fn bad_line_is_skipped_and_next_line_is_read() {
    let mut reader = StreamReader::new();
    assert!(reader.accept_line(&[0xff, b'\n']).is_none());
    assert!(!reader.read_at_least_one_message());
    assert!(!reader.is_stopped());
    assert!(matches!(
        reader.accept_line(DIAGNOSTIC_LINE.as_bytes()),
        Some(BuildMessage::CompilerMessage(_))
    ));
    assert!(reader.read_at_least_one_message());
}

#[test]
fn failing_exit_without_messages_is_an_error() {
    let reader = StreamReader::new();
    assert_eq!(
        reader.outcome(false, Some(1), "cargo check".to_string()),
        Err(RunError { exit_code: Some(1), command: "cargo check".to_string() })
    );
    assert_eq!(reader.outcome(true, Some(0), "cargo check".to_string()), Ok(()));
}

#[test]
fn failing_exit_after_one_message_is_success() {
    let mut reader = StreamReader::new();
    let message = reader.accept_line(DIAGNOSTIC_LINE.as_bytes()).unwrap();
    reader.delivered(true);
    assert_eq!(reader.outcome(false, Some(1), "cargo check".to_string()), Ok(()));

    let mut sup = supervisor();
    sup.start();
    sup.step(Stimulus::Command(CheckCommand::Update));
    sup.step(Stimulus::Event(CheckEvent::Begin));
    let effects = sup.step(Stimulus::Event(event_for(message).unwrap()));
    assert_eq!(kinds(&effects), vec!["add"]);
    match &effects[0] {
        Effect::Task(CheckTask::AddDiagnostic { workspace_root, diagnostic }) => {
            assert_eq!(workspace_root, &PathBuf::from("/ws"));
            assert_eq!(diagnostic.message, "unused variable: `x`");
        }
        _ => unreachable!(),
    }
    assert_eq!(kinds(&sup.step(Stimulus::Event(CheckEvent::End))), vec!["end"]);
    assert_eq!(kinds(&sup.step(Stimulus::EventsClosed)), vec!["stop"]);
}

#[test]
fn reader_stops_when_receiver_is_gone() {
    let mut reader = StreamReader::new();
    reader.accept_line(b"text\n");
    reader.delivered(true);
    assert!(!reader.is_stopped());
    reader.delivered(false);
    assert!(reader.is_stopped());
}

#[test]
fn start_clears_previous_results() {
    let mut sup = supervisor();
    assert_eq!(kinds(&sup.start()), vec!["clear"]);
    assert!(!sup.progress_active());
}

#[test]
fn request_while_idle_starts_exactly_one_run() {
    let mut sup = supervisor();
    sup.start();
    let effects = sup.step(Stimulus::Command(CheckCommand::Update));
    assert_eq!(kinds(&effects), vec!["clear", "stop", "start"]);
    match &effects[2] {
        Effect::StartRun(inv) => assert_eq!(inv, &cargo_check().invocation()),
        _ => unreachable!(),
    }
    assert_eq!(kinds(&sup.step(Stimulus::EventsClosed)), vec!["stop"]);
}

#[test]
fn failing_run_without_output_emits_no_diagnostics() {
    let mut sup = supervisor();
    sup.start();
    sup.step(Stimulus::Command(CheckCommand::Update));
    let mut all = Vec::new();
    all.extend(kinds(&sup.step(Stimulus::Event(CheckEvent::Begin))));
    all.extend(kinds(&sup.step(Stimulus::Event(CheckEvent::End))));
    all.extend(kinds(&sup.step(Stimulus::EventsClosed)));
    assert_eq!(all, vec!["begin", "end", "stop"]);
}

#[test]
fn two_requests_back_to_back_restart_twice() {
    let mut sup = supervisor();
    sup.start();
    let mut all = Vec::new();
    all.extend(kinds(&sup.step(Stimulus::Command(CheckCommand::Update))));
    all.extend(kinds(&sup.step(Stimulus::Event(CheckEvent::Begin))));
    all.extend(kinds(&sup.step(Stimulus::Command(CheckCommand::Update))));
    all.extend(kinds(&sup.step(Stimulus::Event(CheckEvent::Begin))));
    all.extend(kinds(&sup.step(Stimulus::Event(CheckEvent::Msg(diagnostic_message())))));
    all.extend(kinds(&sup.step(Stimulus::Event(CheckEvent::End))));
    all.extend(kinds(&sup.step(Stimulus::EventsClosed)));
    assert_eq!(
        all,
        vec![
            "clear", "stop", "start", "begin", "end", "clear", "stop", "start", "begin", "add", "end",
            "stop"
        ]
    );
    assert_eq!(all.iter().filter(|k| **k == "clear").count(), 2);
    assert_eq!(all.iter().filter(|k| **k == "add").count(), 1);
}

#[test]
fn clears_match_runs_started() {
    let mut sup = supervisor();
    sup.start();
    let mut all = Vec::new();
    for _ in 0..3 {
        all.extend(kinds(&sup.step(Stimulus::Command(CheckCommand::Update))));
        all.extend(kinds(&sup.step(Stimulus::Event(CheckEvent::Begin))));
        all.extend(kinds(&sup.step(Stimulus::Event(CheckEvent::Msg(diagnostic_message())))));
    }
    let clears = all.iter().filter(|k| **k == "clear").count();
    let starts = all.iter().filter(|k| **k == "start").count();
    assert_eq!(clears, 3);
    assert_eq!(clears, starts);
    for (i, k) in all.iter().enumerate() {
        if *k == "clear" {
            assert_eq!(all[i + 1], "stop");
            assert_eq!(all[i + 2], "start");
        }
    }
}

#[test]
fn progress_reports_artifact_names() {
    let mut sup = supervisor();
    sup.start();
    sup.step(Stimulus::Command(CheckCommand::Update));
    sup.step(Stimulus::Event(CheckEvent::Begin));
    assert!(sup.progress_active());
    let effects = sup.step(Stimulus::Event(CheckEvent::Msg(artifact("serde", false))));
    match effects.as_slice() {
        [Effect::ReportProgress(name)] => assert_eq!(name, "serde"),
        other => panic!("unexpected {:?}", other),
    }
    let ignored = sup.step(Stimulus::Event(CheckEvent::Msg(BuildMessage::TextLine("x".to_string()))));
    assert!(ignored.is_empty());
}

#[test]
fn closing_commands_while_running_stops_run_and_exits() {
    let mut sup = supervisor();
    sup.start();
    sup.step(Stimulus::Command(CheckCommand::Update));
    sup.step(Stimulus::Event(CheckEvent::Begin));
    assert_eq!(kinds(&sup.step(Stimulus::CommandsClosed)), vec!["end", "stop", "exit"]);
    assert!(sup.exited());
}

#[test]
fn closing_commands_while_idle_exits() {
    let mut sup = supervisor();
    sup.start();
    assert_eq!(kinds(&sup.step(Stimulus::CommandsClosed)), vec!["exit"]);
    assert!(sup.exited());
}

#[test]
fn restart_ends_open_progress() {
    let mut sup = supervisor();
    sup.start();
    sup.step(Stimulus::Command(CheckCommand::Update));
    sup.step(Stimulus::Event(CheckEvent::Begin));
    assert!(sup.progress_active());
    let effects = sup.step(Stimulus::Command(CheckCommand::Update));
    assert_eq!(kinds(&effects), vec!["end", "clear", "stop", "start"]);
    assert!(!sup.progress_active());
}

#[test]
fn decodes_artifact_with_target_name() {
    let line = "{\"reason\":\"compiler-artifact\",\"package_id\":\"foo 0.1.0 (path+file:///foo)\",\"target\":{\"name\":\"foo\",\"kind\":[\"lib\"],\"src_path\":\"/foo/src/lib.rs\"},\"profile\":{\"opt_level\":\"0\",\"debuginfo\":2,\"debug_assertions\":true,\"overflow_checks\":true,\"test\":false},\"features\":[],\"filenames\":[],\"executable\":null,\"fresh\":true}\n";
    match decode_line(line.as_bytes()) {
        Some(BuildMessage::CompilerArtifact { target_name, fresh }) => {
            assert_eq!(target_name, "foo");
            assert!(fresh);
        }
        other => panic!("unexpected {:?}", other),
    }
}

#[test]
fn text_line_loses_its_crlf_terminator() {
    match decode_line(b"warning: x\r\n") {
        Some(BuildMessage::TextLine(t)) => assert_eq!(t, "warning: x"),
        other => panic!("unexpected {:?}", other),
    }
}
