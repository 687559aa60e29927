//! Routing of an interaction to its command, and the cycle that makes sure
//! the user gets either the reply or a private diagnostic.
//!
//! The caller performs each send and reports whether it was delivered; the
//! cycle answers with the next phase and what to send next, if anything.

use vstd::prelude::*;
use crate::compile::{compile, compiled, Reply};
use crate::error::BotError;
use crate::options::{last_text, CommandOption};
use crate::text::push_char;
use crate::timezone::UtcOffset;

verus! {

/// Name of the message context-menu command.
pub const CONTEXT_MENU_NAME: &'static str = "Tell me the times";

/// Name of the chat-input timestamp command.
pub const TIMESTAMP_NAME: &'static str = "timestamp";

/// Acknowledgement sent by the context-menu command.
pub const ACKNOWLEDGEMENT: &'static str = "hi";

pub const DIAGNOSTIC_START: &'static str = "An error happened on the server side. Please contact ";
pub const DIAGNOSTIC_MIDDLE: &'static str = " and tell ";
pub const DIAGNOSTIC_END: &'static str = " what command you ran at what time.";

/// Process-wide settings, fixed at startup.
#[derive(Debug, Clone)]
pub struct BotConfig {
    pub default_offset: UtcOffset,
    /// How users reach the maintainer, e.g. a mention.
    pub maintainer: String,
    /// The object pronoun used for the maintainer in the diagnostic.
    pub maintainer_pronoun: String,
}

#[derive(Debug, Clone, Copy, PartialEq, Eq, Structural)]
pub enum CommandKind {
    TellTimes,
    Timestamp,
}

/// The command registered under a name.
pub open spec fn command_of(name: Seq<char>) -> Option<CommandKind> {
    if name == CONTEXT_MENU_NAME@ {
        Some(CommandKind::TellTimes)
    } else if name == TIMESTAMP_NAME@ {
        Some(CommandKind::Timestamp)
    } else {
        None
    }
}

/// The diagnostic text sent when no reply could be given.
pub open spec fn diagnostic_of(maintainer: Seq<char>, pronoun: Seq<char>) -> Seq<char> {
    DIAGNOSTIC_START@ + maintainer + DIAGNOSTIC_MIDDLE@ + pronoun + DIAGNOSTIC_END@
}

/// What running a command yields, given the local wall-clock time.
pub open spec fn command_result(
    cfg: BotConfig,
    name: Seq<char>,
    opts: Seq<CommandOption>,
    now_local: int,
    r: Result<Reply, BotError>,
) -> bool {
    match command_of(name) {
        None => r == Err::<Reply, BotError>(BotError::UnknownCommand),
        Some(CommandKind::TellTimes) => r is Ok && r->Ok_0.text@ == ACKNOWLEDGEMENT@ && r->Ok_0.public,
        Some(CommandKind::Timestamp) => compiled(opts, now_local, cfg.default_offset.secs_spec(), r),
    }
}

pub fn command_kind(name: &str) -> (r: Option<CommandKind>)
    ensures
        r == command_of(name@),
{
    let n = String::from_str(name);
    if n == String::from_str(CONTEXT_MENU_NAME) {
        Some(CommandKind::TellTimes)
    } else if n == String::from_str(TIMESTAMP_NAME) {
        Some(CommandKind::Timestamp)
    } else {
        None
    }
}

impl BotConfig {
    /// The private diagnostic text naming the maintainer.
    pub fn diagnostic(&self) -> (r: String)
        ensures
            r@ == diagnostic_of(self.maintainer@, self.maintainer_pronoun@),
    {
        let mut s = String::from_str(DIAGNOSTIC_START);
        s.append(self.maintainer.as_str());
        s.append(DIAGNOSTIC_MIDDLE);
        s.append(self.maintainer_pronoun.as_str());
        s.append(DIAGNOSTIC_END);
        s
    }
}

/// Runs the command that `name` names, at the given local wall-clock time.
pub fn run_command(cfg: &BotConfig, name: &str, options: &Vec<CommandOption>, now_local: i64) -> (r: Result<Reply, BotError>)
    ensures
        command_result(*cfg, name@, options@, now_local as int, r),
{
    match command_kind(name) {
        Some(CommandKind::TellTimes) => Ok(Reply { text: String::from_str(ACKNOWLEDGEMENT), public: true }),
        Some(CommandKind::Timestamp) => compile(options, now_local, cfg.default_offset),
        None => Err(BotError::UnknownCommand),
    }
}

/// Relies on chrono's `Local::now`: the wall-clock time in the machine's
/// zone, as seconds since the epoch read as UTC (through `naive_local`,
/// `and_utc` and `timestamp`). Nothing is promised of its value.
#[verifier::external_body]
fn local_now() -> (r: i64) {
    chrono::Local::now().naive_local().and_utc().timestamp()
}

/// Handles one interaction at the current local time.
pub fn handle_interaction(cfg: &BotConfig, name: &str, options: &Vec<CommandOption>) -> (r: Result<Reply, BotError>)
    ensures
        exists|now_local: i64| command_result(*cfg, name@, options@, now_local as int, r),
{
    let now_local = local_now();
    let r = run_command(cfg, name, options, now_local);
    assert(command_result(*cfg, name@, options@, now_local as int, r));
    r
}

/// Where one interaction's cycle stands.
#[derive(Debug, Clone, Copy, PartialEq, Eq, Structural)]
pub enum CyclePhase {
    /// The reply is being sent.
    AwaitingPrimary,
    /// The diagnostic is being sent.
    AwaitingDiagnostic,
    /// The reply or the diagnostic reached the user.
    ResponseSent,
    /// Neither could be delivered; nothing more is tried.
    ResponseUnrecoverable,
}

#[derive(Debug, Clone, Copy, PartialEq, Eq, Structural)]
pub enum SendOutcome {
    Delivered,
    Failed,
}

/// The next phase, and what to send now, if anything.
#[derive(Debug, Clone)]
pub struct CycleStep {
    pub phase: CyclePhase,
    pub send: Option<Reply>,
}

pub open spec fn is_terminal(p: CyclePhase) -> bool {
    p == CyclePhase::ResponseSent || p == CyclePhase::ResponseUnrecoverable
}

/// A send as text and visibility.
pub open spec fn send_view(send: Option<Reply>) -> Option<(Seq<char>, bool)> {
    match send {
        Some(r) => Some((r.text@, r.public)),
        None => None,
    }
}

/// The first step for the handler's outcome: the reply, or the diagnostic.
pub open spec fn begin_spec(cfg: BotConfig, outcome: Result<Reply, BotError>) -> (CyclePhase, Option<(Seq<char>, bool)>) {
    match outcome {
        Ok(r) => (CyclePhase::AwaitingPrimary, Some((r.text@, r.public))),
        Err(_) => (CyclePhase::AwaitingDiagnostic, Some((diagnostic_of(cfg.maintainer@, cfg.maintainer_pronoun@), false))),
    }
}

/// The step after a send was delivered or failed.
pub open spec fn advance_spec(cfg: BotConfig, phase: CyclePhase, sent: SendOutcome) -> (CyclePhase, Option<(Seq<char>, bool)>) {
    match (phase, sent) {
        (CyclePhase::AwaitingPrimary, SendOutcome::Delivered) => (CyclePhase::ResponseSent, None),
        (CyclePhase::AwaitingPrimary, SendOutcome::Failed) =>
            (CyclePhase::AwaitingDiagnostic, Some((diagnostic_of(cfg.maintainer@, cfg.maintainer_pronoun@), false))),
        (CyclePhase::AwaitingDiagnostic, SendOutcome::Delivered) => (CyclePhase::ResponseSent, None),
        (CyclePhase::AwaitingDiagnostic, SendOutcome::Failed) => (CyclePhase::ResponseUnrecoverable, None),
        (p, _) => (p, None),
    }
}

/// Starts the cycle for the handler's outcome.
pub fn begin_cycle(cfg: &BotConfig, outcome: Result<Reply, BotError>) -> (r: CycleStep)
    ensures
        (r.phase, send_view(r.send)) == begin_spec(*cfg, outcome),
{
    match outcome {
        Ok(reply) => CycleStep { phase: CyclePhase::AwaitingPrimary, send: Some(reply) },
        Err(_) => CycleStep {
            phase: CyclePhase::AwaitingDiagnostic,
            send: Some(Reply { text: cfg.diagnostic(), public: false }),
        },
    }
}

/// Moves the cycle on after a send was delivered or failed.
pub fn advance_cycle(cfg: &BotConfig, phase: CyclePhase, sent: SendOutcome) -> (r: CycleStep)
    ensures
        (r.phase, send_view(r.send)) == advance_spec(*cfg, phase, sent),
{
    match (phase, sent) {
        (CyclePhase::AwaitingPrimary, SendOutcome::Delivered) => CycleStep { phase: CyclePhase::ResponseSent, send: None },
        (CyclePhase::AwaitingPrimary, SendOutcome::Failed) => CycleStep {
            phase: CyclePhase::AwaitingDiagnostic,
            send: Some(Reply { text: cfg.diagnostic(), public: false }),
        },
        (CyclePhase::AwaitingDiagnostic, SendOutcome::Delivered) => CycleStep { phase: CyclePhase::ResponseSent, send: None },
        (CyclePhase::AwaitingDiagnostic, SendOutcome::Failed) => CycleStep { phase: CyclePhase::ResponseUnrecoverable, send: None },
        (p, _) => CycleStep { phase: p, send: None },
    }
}

/// A `timestamp` interaction without a descriptor fails with
/// `MissingRequiredOption`, and the cycle answers with the private
/// diagnostic.
pub proof fn lemma_missing_descriptor(
    cfg: BotConfig,
    opts: Seq<CommandOption>,
    now_local: int,
    r: Result<Reply, BotError>,
)
    requires
        last_text(opts, "descriptor"@) is None,
        command_result(cfg, TIMESTAMP_NAME@, opts, now_local, r),
    ensures
        r == Err::<Reply, BotError>(BotError::MissingRequiredOption),
        begin_spec(cfg, r) == (CyclePhase::AwaitingDiagnostic, Some((diagnostic_of(cfg.maintainer@, cfg.maintainer_pronoun@), false))),
{
    reveal_strlit("Tell me the times");
    reveal_strlit("timestamp");
    assert(TIMESTAMP_NAME@.len() != CONTEXT_MENU_NAME@.len());
}

/// An interaction whose name no command has fails with `UnknownCommand`,
/// and the cycle answers with the private diagnostic.
pub proof fn lemma_unknown_command(
    cfg: BotConfig,
    name: Seq<char>,
    opts: Seq<CommandOption>,
    now_local: int,
    r: Result<Reply, BotError>,
)
    requires
        name != CONTEXT_MENU_NAME@,
        name != TIMESTAMP_NAME@,
        command_result(cfg, name, opts, now_local, r),
    ensures
        r == Err::<Reply, BotError>(BotError::UnknownCommand),
        begin_spec(cfg, r) == (CyclePhase::AwaitingDiagnostic, Some((diagnostic_of(cfg.maintainer@, cfg.maintainer_pronoun@), false))),
{
}

/// Whatever the outcome and whatever each send does, the cycle is over after
/// at most two sends, stays over, and every diagnostic it sends is private.
pub proof fn lemma_cycle_ends(cfg: BotConfig, outcome: Result<Reply, BotError>, first: SendOutcome, second: SendOutcome)
    ensures
        ({
            let start = begin_spec(cfg, outcome);
            let one = advance_spec(cfg, start.0, first);
            let two = advance_spec(cfg, one.0, second);
            &&& is_terminal(two.0)
            &&& is_terminal(one.0) ==> two.0 == one.0 && two.1 is None
            &&& outcome is Err ==> start.1->Some_0.1 == false
            &&& one.1 is Some ==> one.1->Some_0.1 == false
            &&& two.1 is None
        }),
{
}

} // verus!
