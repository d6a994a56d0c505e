//! How the backend process is launched, and what becomes of the output it
//! writes while it runs.

use vstd::prelude::*;
use crate::text::{decimal, decimal_string, push_decimal, texts};

verus! {

/// The two ways of producing the backend process.
#[derive(Clone, Copy, Debug, PartialEq, Eq, Structural)]
pub enum LaunchStrategy {
    /// A system-resolved interpreter runs the backend's entry module.
    Development,
    /// The executable bundled with the application runs as a sidecar.
    Production,
}

/// The strategy of a build: development for debug builds, production
/// otherwise. Nothing at run time can change it.
pub fn select_strategy(debug_build: bool) -> (strategy: LaunchStrategy)
    ensures
        strategy == (if debug_build {
            LaunchStrategy::Development
        } else {
            LaunchStrategy::Production
        }),
{
    if debug_build {
        LaunchStrategy::Development
    } else {
        LaunchStrategy::Production
    }
}

/// Everything the launcher needs to start the backend.
#[derive(Debug, PartialEq, Eq)]
pub struct LaunchPlan {
    pub strategy: LaunchStrategy,
    /// Interpreter name, or the name of the bundled executable.
    pub program: String,
    pub args: Vec<String>,
    /// The child must not outlive the handle that owns it.
    pub kill_on_drop: bool,
    /// The child's output lines are handed to the log forwarder.
    pub capture_output: bool,
}

/// The program that a strategy runs.
pub open spec fn plan_program(strategy: LaunchStrategy) -> Seq<char> {
    match strategy {
        LaunchStrategy::Development => "python"@,
        LaunchStrategy::Production => "ragkit-backend"@,
    }
}

/// The arguments that a strategy passes for `port`.
pub open spec fn plan_args(strategy: LaunchStrategy, port: u16) -> Seq<Seq<char>> {
    match strategy {
        LaunchStrategy::Development => seq![
            "-m"@,
            "ragkit.desktop.main"@,
            "--port"@,
            decimal(port as nat),
        ],
        LaunchStrategy::Production => seq!["--port"@, decimal(port as nat)],
    }
}

/// The launch plan of `strategy` for a backend that is to listen on `port`.
///
/// Development runs the interpreter on the entry module and ties the child's
/// life to its handle, without capturing output. Production runs the bundled
/// executable and captures its output. Both pass `--port <port>`.
pub fn launch_plan(strategy: LaunchStrategy, port: u16) -> (plan: LaunchPlan)
    ensures
        plan.strategy == strategy,
        plan.program@ == plan_program(strategy),
        texts(plan.args@) == plan_args(strategy, port),
        plan.kill_on_drop == (strategy == LaunchStrategy::Development),
        plan.capture_output == (strategy == LaunchStrategy::Production),
{
    let mut args: Vec<String> = Vec::new();
    match strategy {
        LaunchStrategy::Development => {
            args.push(String::from_str("-m"));
            args.push(String::from_str("ragkit.desktop.main"));
            args.push(String::from_str("--port"));
            args.push(decimal_string(port as u64));
            assert(texts(args@) =~= plan_args(strategy, port));
            LaunchPlan {
                strategy,
                program: String::from_str("python"),
                args,
                kill_on_drop: true,
                capture_output: false,
            }
        },
        LaunchStrategy::Production => {
            args.push(String::from_str("--port"));
            args.push(decimal_string(port as u64));
            assert(texts(args@) =~= plan_args(strategy, port));
            LaunchPlan {
                strategy,
                program: String::from_str("ragkit-backend"),
                args,
                kill_on_drop: false,
                capture_output: true,
            }
        },
    }
}

/// What a running child reports.
#[derive(Debug)]
pub enum OutputEvent {
    /// A line the child wrote to its standard output, as raw bytes.
    StandardOutputLine(Vec<u8>),
    /// A line the child wrote to its error output, as raw bytes.
    ErrorOutputLine(Vec<u8>),
    /// The child exited, with its exit code where there is one.
    Terminated(Option<i32>),
    /// The launch channel failed.
    LaunchError(String),
    /// Any other report of the launch channel.
    Other,
}

/// Severity of a forwarded log record.
#[derive(Clone, Copy, Debug, PartialEq, Eq, Structural)]
pub enum LogLevel {
    Info,
    Warn,
    Error,
}

/// One record for the application's log.
#[derive(Debug, PartialEq, Eq)]
pub struct LogRecord {
    pub level: LogLevel,
    pub message: String,
}

/// What the forwarder does with one event.
#[derive(Debug, PartialEq, Eq)]
pub struct Forwarded {
    /// The record to log, if the event is logged at all.
    pub record: Option<LogRecord>,
    /// The forwarder ends its loop after this event.
    pub finished: bool,
}

/// The text that lossy UTF-8 decoding gives for `bytes`: malformed sequences
/// come out as U+FFFD.
pub uninterp spec fn utf8_lossy(bytes: Seq<u8>) -> Seq<char>;

/// `String::from_utf8_lossy` of std. The result depends on the bytes alone and
/// is named by [`utf8_lossy`]; nothing further is claimed of it.
#[verifier::external_body]
fn decode_lossy(bytes: &Vec<u8>) -> (text: String)
    ensures
        text@ == utf8_lossy(bytes@),
{
    String::from_utf8_lossy(bytes).into_owned()
}

/// The numeral of a signed integer: a minus sign before the magnitude of a
/// negative one.
pub open spec fn signed_decimal(n: int) -> Seq<char> {
    if n < 0 {
        seq!['-'] + decimal((-n) as nat)
    } else {
        decimal(n as nat)
    }
}

/// How an optional exit code is shown: `Some(<code>)` or `None`.
pub open spec fn exit_code_text(code: Option<i32>) -> Seq<char> {
    match code {
        Some(c) => "Some("@ + signed_decimal(c as int) + ")"@,
        None => "None"@,
    }
}

/// The message logged for an output line: the stream's tag, then the line.
pub open spec fn line_message(error_stream: bool, line: Seq<char>) -> Seq<char> {
    if error_stream {
        "[backend stderr] "@ + line
    } else {
        "[backend stdout] "@ + line
    }
}

/// The message logged when the child has exited.
pub open spec fn terminated_message(code: Option<i32>) -> Seq<char> {
    "[backend] terminated with code: "@ + exit_code_text(code)
}

/// The message logged when the launch channel failed.
pub open spec fn launch_error_message(detail: Seq<char>) -> Seq<char> {
    "[backend] error: "@ + detail
}

/// The level and message the forwarder logs for `event`, none for an event it
/// passes over.
pub open spec fn forwarded_record(event: OutputEvent) -> Option<(LogLevel, Seq<char>)> {
    match event {
        OutputEvent::StandardOutputLine(bytes) => Some(
            (LogLevel::Info, line_message(false, utf8_lossy(bytes@))),
        ),
        OutputEvent::ErrorOutputLine(bytes) => Some(
            (LogLevel::Warn, line_message(true, utf8_lossy(bytes@))),
        ),
        OutputEvent::Terminated(code) => Some((LogLevel::Info, terminated_message(code))),
        OutputEvent::LaunchError(detail) => Some(
            (LogLevel::Error, launch_error_message(detail@)),
        ),
        OutputEvent::Other => None,
    }
}

/// The events after which the forwarder stops: the child's exit and a failure
/// of the launch channel.
pub open spec fn ends_forwarding(event: OutputEvent) -> bool {
    event is Terminated || event is LaunchError
}

/// The record for one decoded output line: standard output at info level,
/// error output at warn level, each behind its stream's tag.
pub fn line_record(error_stream: bool, line: &str) -> (record: LogRecord)
    ensures
        record.level == (if error_stream {
            LogLevel::Warn
        } else {
            LogLevel::Info
        }),
        record.message@ == line_message(error_stream, line@),
{
    if error_stream {
        let mut message = String::from_str("[backend stderr] ");
        message.append(line);
        LogRecord { level: LogLevel::Warn, message }
    } else {
        let mut message = String::from_str("[backend stdout] ");
        message.append(line);
        LogRecord { level: LogLevel::Info, message }
    }
}

/// The record for the child's exit.
pub fn terminated_record(code: Option<i32>) -> (record: LogRecord)
    ensures
        record.level == LogLevel::Info,
        record.message@ == terminated_message(code),
{
    let mut message = String::from_str("[backend] terminated with code: ");
    match code {
        Some(c) => {
            let ghost head = message@;
            message.append("Some(");
            if c < 0 {
                message.append("-");
                proof {
                    reveal_strlit("-");
                    assert("-"@ =~= seq!['-']);
                }
                let magnitude: u64 = (-(c as i64)) as u64;
                push_decimal(&mut message, magnitude);
            } else {
                push_decimal(&mut message, c as u64);
            }
            message.append(")");
            assert(message@ =~= head + ("Some("@ + signed_decimal(c as int) + ")"@));
        },
        None => {
            message.append("None");
        },
    }
    LogRecord { level: LogLevel::Info, message }
}

/// The record for a failure of the launch channel.
pub fn launch_error_record(detail: &str) -> (record: LogRecord)
    ensures
        record.level == LogLevel::Error,
        record.message@ == launch_error_message(detail@),
{
    let mut message = String::from_str("[backend] error: ");
    message.append(detail);
    LogRecord { level: LogLevel::Error, message }
}

/// One step of the log forwarder: what to log for `event`, and whether the
/// forwarder is done.
///
/// Output lines are decoded lossily and logged (standard output at info,
/// error output at warn); the forwarder goes on. An exit or a launch failure
/// is logged and ends the forwarder; neither is reported to anyone else.
/// Every other event is passed over.
pub fn forward_output(event: &OutputEvent) -> (step: Forwarded)
    ensures
        step.finished == ends_forwarding(*event),
        match forwarded_record(*event) {
            Some((level, message)) => step.record is Some && step.record->0.level == level
                && step.record->0.message@ == message,
            None => step.record is None,
        },
{
    match event {
        OutputEvent::StandardOutputLine(bytes) => {
            let line = decode_lossy(bytes);
            Forwarded { record: Some(line_record(false, line.as_str())), finished: false }
        },
        OutputEvent::ErrorOutputLine(bytes) => {
            let line = decode_lossy(bytes);
            Forwarded { record: Some(line_record(true, line.as_str())), finished: false }
        },
        OutputEvent::Terminated(code) => Forwarded {
            record: Some(terminated_record(*code)),
            finished: true,
        },
        OutputEvent::LaunchError(detail) => Forwarded {
            record: Some(launch_error_record(detail.as_str())),
            finished: true,
        },
        OutputEvent::Other => Forwarded { record: None, finished: false },
    }
}

} // verus!
