use timestamp_bot::compile::Reply;
use timestamp_bot::dispatch::{
    advance_cycle, begin_cycle, command_kind, handle_interaction, run_command, BotConfig, CommandKind,
    CyclePhase, SendOutcome,
};
use timestamp_bot::error::BotError;
use timestamp_bot::options::{CommandOption, OptionValue};
use timestamp_bot::timezone::UtcOffset;

fn config() -> BotConfig {
    BotConfig {
        default_offset: UtcOffset::east_opt(3600).unwrap(),
        maintainer: "@maintainer".to_string(),
        maintainer_pronoun: "them".to_string(),
    }
}

const DIAGNOSTIC: &str =
    "An error happened on the server side. Please contact @maintainer and tell them what command you ran at what time.";

#[test]
fn missing_descriptor_gives_private_diagnostic() {
    let cfg = config();
    let opts = vec![CommandOption { name: "timezone".to_string(), value: OptionValue::Text("pt".to_string()) }];
    let outcome = run_command(&cfg, "timestamp", &opts, 1700000000);
    assert_eq!(outcome.as_ref().unwrap_err(), &BotError::MissingRequiredOption);
    let step = begin_cycle(&cfg, outcome);
    assert_eq!(step.phase, CyclePhase::AwaitingDiagnostic);
    let send = step.send.unwrap();
    assert_eq!(send.text, DIAGNOSTIC);
    assert!(!send.public);
}

#[test]
fn unknown_command_gives_private_diagnostic() {
    let cfg = config();
    let outcome = handle_interaction(&cfg, "foo", &vec![]);
    assert_eq!(outcome.as_ref().unwrap_err(), &BotError::UnknownCommand);
    let step = begin_cycle(&cfg, outcome);
    assert_eq!(step.phase, CyclePhase::AwaitingDiagnostic);
    let send = step.send.unwrap();
    assert_eq!(send.text, DIAGNOSTIC);
    assert!(!send.public);
}

#[test]
fn command_names() {
    assert_eq!(command_kind("Tell me the times"), Some(CommandKind::TellTimes));
    assert_eq!(command_kind("timestamp"), Some(CommandKind::Timestamp));
    assert_eq!(command_kind("Timestamp"), None);
    assert_eq!(command_kind("foo"), None);
}

#[test]
fn context_menu_acknowledges_publicly() {
    let r = run_command(&config(), "Tell me the times", &vec![], 0).unwrap();
    assert_eq!(r.text, "hi");
    assert!(r.public);
}

#[test]
fn timestamp_command_replies_privately() {
    let opts = vec![
        CommandOption { name: "descriptor".to_string(), value: OptionValue::Text("now".to_string()) },
        CommandOption { name: "list".to_string(), value: OptionValue::Flag(false) },
    ];
    let r = run_command(&config(), "timestamp", &opts, 3600).unwrap();
    assert_eq!(r.text, "`<t:0:R>` => <t:0:R>");
    assert!(!r.public);
    let live = handle_interaction(&config(), "timestamp", &opts).unwrap();
    assert!(live.text.starts_with("`<t:"));
    assert!(live.text.ends_with(":R>"));
}

#[test]
fn cycle_primary_delivered() {
    let cfg = config();
    let reply = Reply { text: "x".to_string(), public: true };
    let step = begin_cycle(&cfg, Ok(reply));
    assert_eq!(step.phase, CyclePhase::AwaitingPrimary);
    assert_eq!(step.send.unwrap().text, "x");
    let next = advance_cycle(&cfg, CyclePhase::AwaitingPrimary, SendOutcome::Delivered);
    assert_eq!(next.phase, CyclePhase::ResponseSent);
    assert!(next.send.is_none());
}

#[test]
fn cycle_primary_fails_then_diagnostic() {
    let cfg = config();
    let next = advance_cycle(&cfg, CyclePhase::AwaitingPrimary, SendOutcome::Failed);
    assert_eq!(next.phase, CyclePhase::AwaitingDiagnostic);
    let send = next.send.unwrap();
    assert_eq!(send.text, DIAGNOSTIC);
    assert!(!send.public);
    let ok = advance_cycle(&cfg, CyclePhase::AwaitingDiagnostic, SendOutcome::Delivered);
    assert_eq!(ok.phase, CyclePhase::ResponseSent);
    let lost = advance_cycle(&cfg, CyclePhase::AwaitingDiagnostic, SendOutcome::Failed);
    assert_eq!(lost.phase, CyclePhase::ResponseUnrecoverable);
    assert!(lost.send.is_none());
    let stay = advance_cycle(&cfg, CyclePhase::ResponseUnrecoverable, SendOutcome::Delivered);
    assert_eq!(stay.phase, CyclePhase::ResponseUnrecoverable);
    assert!(stay.send.is_none());
}

#[test]
fn diagnostic_text() {
    assert_eq!(config().diagnostic(), DIAGNOSTIC);
}
