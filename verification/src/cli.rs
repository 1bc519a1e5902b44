//! The command line: its grammar, what each command reports, and the
//! deterministic demo's requests and report. The application reads the
//! arguments, runs the runtime and prints.
use vstd::prelude::*;
use crate::json::{Json, JsonV, json_get, str_list_json};
use crate::protocol::schema::json_list;
use crate::protocol::message::EventEnvelope;
use crate::protocol::payload::{
    RuntimeLLMRequestPayload, RuntimeTaskAssignPayload, RuntimeTaskResultPayload,
    RuntimeToolRequestPayload,
};
use crate::protocol::subject::{
    RUNTIME_LLM_REQUEST, RUNTIME_LLM_RESPONSE, RUNTIME_TASK_ASSIGN, RUNTIME_TASK_RESULT,
    RUNTIME_TOOL_REQUEST, RUNTIME_TOOL_RESULT,
};
use crate::runtime::error::RuntimeError;
use crate::text::{concat, concat3, has_prefix, owned, skip_chars, starts_with, str_eq, views};

verus! {

/// The configuration file `start` uses when none is given.
pub const DEFAULT_CONFIG: &'static str = "config.yaml";

/// The help of the whole command line.
pub const TOP_HELP: &'static str = "Thalamus Agent Runtime CLI\n\nUsage: thalamus [OPTIONS] <COMMAND>\n\nCommands:\n  start        Start the runtime\n  stop         Stop the runtime\n  status       Show runtime status\n  list-agents  List available agents\n  run-demo     Run the local deterministic demo\n  help         Print this message or the help of the given subcommand(s)\n\nOptions:\n  -v, --verbose  Verbose output\n  -h, --help     Print help\n";

/// The help of `start`.
pub const START_HELP: &'static str = "Start the runtime\n\nUsage: thalamus start [OPTIONS]\n\nOptions:\n  -c, --config <CONFIG>  Configuration file path [default: config.yaml]\n  -h, --help             Print help\n";

/// The help of `stop`.
pub const STOP_HELP: &'static str = "Stop the runtime\n\nUsage: thalamus stop\n\nOptions:\n  -h, --help  Print help\n";

/// The help of `status`.
pub const STATUS_HELP: &'static str = "Show runtime status\n\nUsage: thalamus status\n\nOptions:\n  -h, --help  Print help\n";

/// The help of `list-agents`.
pub const LIST_AGENTS_HELP: &'static str = "List available agents\n\nUsage: thalamus list-agents\n\nOptions:\n  -h, --help  Print help\n";

/// The help of `run-demo`.
pub const RUN_DEMO_HELP: &'static str = "Run the local deterministic demo\n\nUsage: thalamus run-demo\n\nOptions:\n  -h, --help  Print help\n";

/// A command of the command line.
#[derive(Clone, Debug, PartialEq)]
pub enum CLICommand {
    /// Start the runtime with a configuration file.
    Start { config: String },
    /// Stop the runtime.
    Stop,
    /// Show the runtime's status.
    Status,
    /// List the registered agents.
    ListAgents,
    /// Run the local deterministic demo.
    RunDemo,
}

/// A parsed command line.
#[derive(Clone, Debug, PartialEq)]
pub struct ThalamusCLI {
    pub verbose: bool,
    pub command: CLICommand,
}

/// An error of the command line.
#[derive(Clone, Debug, PartialEq)]
pub enum CliError {
    ParseError(String),
    RuntimeError(String),
    IoError(String),
    /// Help was asked for; the text to print, after which the program ends
    /// successfully.
    DisplayHelp(String),
}

impl CliError {
    /// The message that describes the error.
    pub open spec fn spec_message(&self) -> Seq<char> {
        match self {
            CliError::ParseError(m) => "Parse error: "@ + m@,
            CliError::RuntimeError(m) => "Runtime error: "@ + m@,
            CliError::IoError(m) => "IO error: "@ + m@,
            CliError::DisplayHelp(m) => m@,
        }
    }

    /// The message that describes the error.
    pub fn message(&self) -> (r: String)
        ensures
            r@ == self.spec_message(),
    {
        match self {
            CliError::ParseError(m) => concat("Parse error: ", m.as_str()),
            CliError::RuntimeError(m) => concat("Runtime error: ", m.as_str()),
            CliError::IoError(m) => concat("IO error: ", m.as_str()),
            CliError::DisplayHelp(m) => m.clone(),
        }
    }
}

/// The view of a command.
pub enum CommandV {
    Start(Seq<char>),
    Stop,
    Status,
    ListAgents,
    RunDemo,
}

/// The view of a parsed command line.
pub struct CliV {
    pub verbose: bool,
    pub command: CommandV,
}

impl CLICommand {
    pub open spec fn view(&self) -> CommandV {
        match self {
            CLICommand::Start { config } => CommandV::Start(config@),
            CLICommand::Stop => CommandV::Stop,
            CLICommand::Status => CommandV::Status,
            CLICommand::ListAgents => CommandV::ListAgents,
            CLICommand::RunDemo => CommandV::RunDemo,
        }
    }
}

/// The characters of each argument.
pub open spec fn arg_views(args: Seq<&str>) -> Seq<Seq<char>> {
    args.map_values(|a: &str| a@)
}

/// The refusal of an argument that has no place where it stands.
pub open spec fn unexpected_msg(t: Seq<char>) -> Seq<char> {
    "unexpected argument '"@ + t + "' found"@
}

/// The refusal of a missing command.
pub open spec fn missing_command_msg() -> Seq<char> {
    "'thalamus' requires a subcommand but one was not provided"@
}

/// The refusal of a repeated `--verbose`.
pub open spec fn repeated_verbose_msg() -> Seq<char> {
    "the argument '--verbose' cannot be used multiple times"@
}

/// The refusal of a repeated `--config`.
pub open spec fn repeated_config_msg() -> Seq<char> {
    "the argument '--config <CONFIG>' cannot be used multiple times"@
}

/// The refusal of a `--config` without a value.
pub open spec fn missing_config_msg() -> Seq<char> {
    "a value is required for '--config <CONFIG>' but none was supplied"@
}

/// The refusal of an unknown command.
pub open spec fn unknown_command_msg(t: Seq<char>) -> Seq<char> {
    "unrecognized subcommand '"@ + t + "'"@
}

/// Why a command line gives no command: a refusal with its message, or a
/// request for help with the text to print.
pub enum CliRefusal {
    Parse(Seq<char>),
    Help(Seq<char>),
}

/// Whether an argument asks for help.
pub open spec fn is_help_flag(t: Seq<char>) -> bool {
    t == "-h"@ || t == "--help"@
}

/// The help of the whole command line.
pub open spec fn top_help() -> Seq<char> {
    TOP_HELP@
}

/// The help of a command.
pub open spec fn command_help(c: CommandV) -> Seq<char> {
    match c {
        CommandV::Start(_) => START_HELP@,
        CommandV::Stop => STOP_HELP@,
        CommandV::Status => STATUS_HELP@,
        CommandV::ListAgents => LIST_AGENTS_HELP@,
        CommandV::RunDemo => RUN_DEMO_HELP@,
    }
}

/// The command a name stands for, with the configuration left at its
/// default.
pub open spec fn command_named(t: Seq<char>) -> Option<CommandV> {
    if t == "start"@ {
        Some(CommandV::Start(DEFAULT_CONFIG@))
    } else if t == "stop"@ {
        Some(CommandV::Stop)
    } else if t == "status"@ {
        Some(CommandV::Status)
    } else if t == "list-agents"@ {
        Some(CommandV::ListAgents)
    } else if t == "run-demo"@ {
        Some(CommandV::RunDemo)
    } else {
        None
    }
}

/// The command line from argument `i` on, before the command: the flag
/// `-v`/`--verbose` at most once, then the command; `-h`/`--help` asks for
/// the help, and so does the command `help`.
pub open spec fn parse_top(args: Seq<Seq<char>>, i: int, verbose: bool) -> Result<CliV, CliRefusal>
    decreases args.len() - i,
{
    if i < 0 || i >= args.len() {
        Err(CliRefusal::Parse(missing_command_msg()))
    } else {
        let t = args[i];
        if t == "-v"@ || t == "--verbose"@ {
            if verbose {
                Err(CliRefusal::Parse(repeated_verbose_msg()))
            } else {
                parse_top(args, i + 1, true)
            }
        } else if is_help_flag(t) {
            Err(CliRefusal::Help(top_help()))
        } else if t == "help"@ {
            parse_help(args, i + 1)
        } else if t == "start"@ {
            parse_start(args, i + 1, verbose, None)
        } else if t == "stop"@ {
            parse_end(args, i + 1, CliV { verbose, command: CommandV::Stop })
        } else if t == "status"@ {
            parse_end(args, i + 1, CliV { verbose, command: CommandV::Status })
        } else if t == "list-agents"@ {
            parse_end(args, i + 1, CliV { verbose, command: CommandV::ListAgents })
        } else if t == "run-demo"@ {
            parse_end(args, i + 1, CliV { verbose, command: CommandV::RunDemo })
        } else if t.len() > 0 && t[0] == '-' {
            Err(CliRefusal::Parse(unexpected_msg(t)))
        } else {
            Err(CliRefusal::Parse(unknown_command_msg(t)))
        }
    }
}

/// The command `help` from argument `j` on: the help of the named command,
/// or of the whole command line when none is named.
pub open spec fn parse_help(args: Seq<Seq<char>>, j: int) -> Result<CliV, CliRefusal> {
    if j < 0 || j >= args.len() {
        Err(CliRefusal::Help(top_help()))
    } else {
        match command_named(args[j]) {
            Some(c) => Err(CliRefusal::Help(command_help(c))),
            None => Err(CliRefusal::Parse(unknown_command_msg(args[j]))),
        }
    }
}

/// A command that takes no argument: only a help flag may follow it.
pub open spec fn parse_end(args: Seq<Seq<char>>, j: int, done: CliV) -> Result<CliV, CliRefusal> {
    if 0 <= j < args.len() {
        if is_help_flag(args[j]) {
            Err(CliRefusal::Help(command_help(done.command)))
        } else {
            Err(CliRefusal::Parse(unexpected_msg(args[j])))
        }
    } else {
        Ok(done)
    }
}

/// The arguments of `start` from `j` on: the configuration at most once,
/// as `-c V`, `--config V`, `--config=V`, `-c=V` or `-cV`; a help flag asks
/// for the help of `start`.
pub open spec fn parse_start(
    args: Seq<Seq<char>>,
    j: int,
    verbose: bool,
    config: Option<Seq<char>>,
) -> Result<CliV, CliRefusal>
    decreases args.len() - j,
{
    if j < 0 || j >= args.len() {
        Ok(
            CliV {
                verbose,
                command: CommandV::Start(
                    match config {
                        Some(c) => c,
                        None => DEFAULT_CONFIG@,
                    },
                ),
            },
        )
    } else {
        let t = args[j];
        if is_help_flag(t) {
            Err(CliRefusal::Help(START_HELP@))
        } else if t == "-c"@ || t == "--config"@ {
            if config is Some {
                Err(CliRefusal::Parse(repeated_config_msg()))
            } else if j + 1 >= args.len() {
                Err(CliRefusal::Parse(missing_config_msg()))
            } else {
                parse_start(args, j + 2, verbose, Some(args[j + 1]))
            }
        } else if has_prefix(t, "--config="@) {
            if config is Some {
                Err(CliRefusal::Parse(repeated_config_msg()))
            } else {
                parse_start(args, j + 1, verbose, Some(t.skip(9)))
            }
        } else if has_prefix(t, "-c="@) {
            if config is Some {
                Err(CliRefusal::Parse(repeated_config_msg()))
            } else {
                parse_start(args, j + 1, verbose, Some(t.skip(3)))
            }
        } else if has_prefix(t, "-c"@) {
            if config is Some {
                Err(CliRefusal::Parse(repeated_config_msg()))
            } else {
                parse_start(args, j + 1, verbose, Some(t.skip(2)))
            }
        } else {
            Err(CliRefusal::Parse(unexpected_msg(t)))
        }
    }
}

/// The command line an argument list stands for; the first argument is
/// the program's name.
pub open spec fn parse_spec(args: Seq<Seq<char>>) -> Result<CliV, CliRefusal> {
    parse_top(args, 1, false)
}

/// Whether a parse result is the one the grammar gives: the command line,
/// a parse error with the refusal's message, or help with its text.
pub open spec fn parsed_as(r: Result<ThalamusCLI, CliError>, s: Result<CliV, CliRefusal>) -> bool {
    match s {
        Ok(c) => r matches Ok(x) && x@ == c,
        Err(CliRefusal::Parse(m)) => r matches Err(CliError::ParseError(e)) && e@ == m,
        Err(CliRefusal::Help(h)) => r matches Err(CliError::DisplayHelp(e)) && e@ == h,
    }
}

/// The line a verbose run writes before it acts.
pub open spec fn progress_text(c: CommandV) -> Seq<char> {
    match c {
        CommandV::Start(config) => "Starting runtime with config: "@ + config,
        CommandV::Stop => "Stopping runtime"@,
        CommandV::Status => "Checking runtime status"@,
        CommandV::ListAgents => "Listing available agents"@,
        CommandV::RunDemo => "Running demo"@,
    }
}

/// The line a command prints when it needs no runtime to run: `stop`
/// reports the runtime stopped (stopping is not a daemon's shutdown),
/// `status` that it is initialized, `list-agents` that there is none.
pub open spec fn report_text(c: CommandV) -> Option<Seq<char>> {
    match c {
        CommandV::Stop => Some("Runtime stopped"@),
        CommandV::Status => Some("Runtime status: initialized"@),
        CommandV::ListAgents => Some("No agents registered"@),
        _ => None,
    }
}

impl ThalamusCLI {
    pub open spec fn view(&self) -> CliV {
        CliV { verbose: self.verbose, command: self.command@ }
    }

    /// The help of a command.
    fn help_of(command: &CLICommand) -> (r: String)
        ensures
            r@ == command_help(command@),
    {
        match command {
            CLICommand::Start { .. } => owned(START_HELP),
            CLICommand::Stop => owned(STOP_HELP),
            CLICommand::Status => owned(STATUS_HELP),
            CLICommand::ListAgents => owned(LIST_AGENTS_HELP),
            CLICommand::RunDemo => owned(RUN_DEMO_HELP),
        }
    }

    /// The command a name stands for.
    fn command_from(t: &str) -> (r: Option<CLICommand>)
        ensures
            match r {
                Some(c) => command_named(t@) == Some(c@),
                None => command_named(t@) is None,
            },
    {
        if str_eq(t, "start") {
            Some(CLICommand::Start { config: owned(DEFAULT_CONFIG) })
        } else if str_eq(t, "stop") {
            Some(CLICommand::Stop)
        } else if str_eq(t, "status") {
            Some(CLICommand::Status)
        } else if str_eq(t, "list-agents") {
            Some(CLICommand::ListAgents)
        } else if str_eq(t, "run-demo") {
            Some(CLICommand::RunDemo)
        } else {
            None
        }
    }

    fn is_help(t: &str) -> (r: bool)
        ensures
            r == is_help_flag(t@),
    {
        str_eq(t, "-h") || str_eq(t, "--help")
    }

    fn parse_top_from(args: &[&str], i: usize, verbose: bool) -> (r: Result<ThalamusCLI, CliError>)
        requires
            1 <= i <= args@.len(),
        ensures
            parsed_as(r, parse_top(arg_views(args@), i as int, verbose)),
        decreases args@.len() - i,
    {
        let ghost av = arg_views(args@);
        if i >= args.len() {
            return Err(CliError::ParseError(owned("'thalamus' requires a subcommand but one was not provided")));
        }
        let t: &str = args[i];
        assert(av[i as int] == t@);
        if str_eq(t, "-v") || str_eq(t, "--verbose") {
            if verbose {
                return Err(CliError::ParseError(owned("the argument '--verbose' cannot be used multiple times")));
            }
            return Self::parse_top_from(args, i + 1, true);
        }
        if Self::is_help(t) {
            return Err(CliError::DisplayHelp(owned(TOP_HELP)));
        }
        if str_eq(t, "help") {
            if i + 1 >= args.len() {
                return Err(CliError::DisplayHelp(owned(TOP_HELP)));
            }
            let u: &str = args[i + 1];
            assert(av[i + 1] == u@);
            return match Self::command_from(u) {
                Some(c) => Err(CliError::DisplayHelp(Self::help_of(&c))),
                None => Err(CliError::ParseError(concat3("unrecognized subcommand '", u, "'"))),
            };
        }
        if str_eq(t, "start") {
            return Self::parse_start_from(args, i + 1, verbose, None);
        }
        let command = if str_eq(t, "stop") {
            CLICommand::Stop
        } else if str_eq(t, "status") {
            CLICommand::Status
        } else if str_eq(t, "list-agents") {
            CLICommand::ListAgents
        } else if str_eq(t, "run-demo") {
            CLICommand::RunDemo
        } else if starts_with(t, "-") {
            proof {
                reveal_strlit("-");
                assert(t@.subrange(0, 1)[0] == t@[0]);
            }
            return Err(CliError::ParseError(concat3("unexpected argument '", t, "' found")));
        } else {
            proof {
                reveal_strlit("-");
                if t@.len() > 0 && t@[0] == '-' {
                    assert(t@.subrange(0, 1) =~= "-"@);
                }
            }
            return Err(CliError::ParseError(concat3("unrecognized subcommand '", t, "'")));
        };
        if i + 1 < args.len() {
            let u: &str = args[i + 1];
            assert(av[i + 1] == u@);
            if Self::is_help(u) {
                return Err(CliError::DisplayHelp(Self::help_of(&command)));
            }
            return Err(CliError::ParseError(concat3("unexpected argument '", u, "' found")));
        }
        Ok(ThalamusCLI { verbose, command })
    }

    fn parse_start_from(args: &[&str], j: usize, verbose: bool, config: Option<String>) -> (r: Result<
        ThalamusCLI,
        CliError,
    >)
        requires
            1 <= j <= args@.len(),
        ensures
            parsed_as(r, parse_start(arg_views(args@), j as int, verbose, crate::text::opt_view(config))),
        decreases args@.len() - j,
    {
        let ghost av = arg_views(args@);
        if j >= args.len() {
            let c = match config {
                Some(c) => c,
                None => owned(DEFAULT_CONFIG),
            };
            return Ok(ThalamusCLI { verbose, command: CLICommand::Start { config: c } });
        }
        let t: &str = args[j];
        assert(av[j as int] == t@);
        if Self::is_help(t) {
            return Err(CliError::DisplayHelp(owned(START_HELP)));
        }
        let repeated = config.is_some();
        if str_eq(t, "-c") || str_eq(t, "--config") {
            if repeated {
                return Err(CliError::ParseError(owned("the argument '--config <CONFIG>' cannot be used multiple times")));
            }
            if j + 1 >= args.len() {
                return Err(CliError::ParseError(owned("a value is required for '--config <CONFIG>' but none was supplied")));
            }
            let v: &str = args[j + 1];
            assert(av[j + 1] == v@);
            return Self::parse_start_from(args, j + 2, verbose, Some(owned(v)));
        }
        proof {
            reveal_strlit("--config=");
            reveal_strlit("-c=");
            reveal_strlit("-c");
        }
        let value = if starts_with(t, "--config=") {
            skip_chars(t, 9)
        } else if starts_with(t, "-c=") {
            skip_chars(t, 3)
        } else if starts_with(t, "-c") {
            skip_chars(t, 2)
        } else {
            return Err(CliError::ParseError(concat3("unexpected argument '", t, "' found")));
        };
        if repeated {
            return Err(CliError::ParseError(owned("the argument '--config <CONFIG>' cannot be used multiple times")));
        }
        Self::parse_start_from(args, j + 1, verbose, Some(value))
    }

    /// Parses a command line; the first argument is the program's name.
    /// The grammar: `[-v|--verbose] <command>`, where the command is
    /// `start [-c|--config <file>]` (default `config.yaml`), `stop`,
    /// `status`, `list-agents` or `run-demo`. `-h`/`--help`, before the
    /// command or after it, and the command `help [<command>]` ask for help,
    /// which comes back as `DisplayHelp` with the text to print.
    pub fn parse_from(args: &[&str]) -> (r: Result<ThalamusCLI, CliError>)
        ensures
            parsed_as(r, parse_spec(arg_views(args@))),
    {
        if args.len() == 0 {
            return Err(CliError::ParseError(owned("'thalamus' requires a subcommand but one was not provided")));
        }
        Self::parse_top_from(args, 1, false)
    }

    /// The command line of a program's arguments.
    pub fn new(args: &[&str]) -> (r: Result<ThalamusCLI, CliError>)
        ensures
            parsed_as(r, parse_spec(arg_views(args@))),
    {
        Self::parse_from(args)
    }

    /// The line a verbose run writes before it acts; nothing when not
    /// verbose.
    pub fn progress_message(&self) -> (r: Option<String>)
        ensures
            crate::text::opt_view(r) == if self.verbose {
                Some(progress_text(self.command@))
            } else {
                None
            },
    {
        if !self.verbose {
            return None;
        }
        Some(
            match &self.command {
                CLICommand::Start { config } => concat(
                    "Starting runtime with config: ",
                    config.as_str(),
                ),
                CLICommand::Stop => owned("Stopping runtime"),
                CLICommand::Status => owned("Checking runtime status"),
                CLICommand::ListAgents => owned("Listing available agents"),
                CLICommand::RunDemo => owned("Running demo"),
            },
        )
    }

    /// The line the command prints when it needs no runtime.
    pub fn report(&self) -> (r: Option<String>)
        ensures
            crate::text::opt_view(r) == report_text(self.command@),
    {
        match &self.command {
            CLICommand::Stop => Some(owned("Runtime stopped")),
            CLICommand::Status => Some(owned("Runtime status: initialized")),
            CLICommand::ListAgents => Some(owned("No agents registered")),
            _ => None,
        }
    }
}

/// The command-line error of a runtime failure, with the failure's message.
pub fn runtime_failed(e: &RuntimeError) -> (r: CliError)
    ensures
        r matches CliError::RuntimeError(m) && m@ == e.spec_message(),
{
    CliError::RuntimeError(e.message())
}

/// The source the demo's requests carry.
pub const DEMO_SOURCE: &'static str = "thalamus-cli";

/// The demo's echo input, `{ "text": "runtime MVP" }`.
pub open spec fn demo_tool_input() -> JsonV {
    JsonV::Object(seq![("text"@, JsonV::Str("runtime MVP"@))])
}

/// The demo's requests, in order: a task assignment to `agent-1`, a model
/// request, an echo tool request, and the task's result, all for the task
/// `task-runtime-1` with the correlation `demo-correlation-1`.
pub open spec fn demo_requests_spec() -> Seq<(Seq<char>, JsonV)> {
    seq![
        (RUNTIME_TASK_ASSIGN@, JsonV::Object(seq![
            ("task_id"@, JsonV::Str("task-runtime-1"@)),
            ("input"@, JsonV::Object(seq![
                ("prompt"@, JsonV::Str("summarize runtime MVP"@)),
                ("tool_input"@, demo_tool_input()),
            ])),
            ("capabilities"@, JsonV::Array(seq![JsonV::Str("llm"@), JsonV::Str("tool.echo"@)])),
            ("metadata"@, JsonV::Object(seq![("demo"@, JsonV::Bool(true))])),
            ("agent_id"@, JsonV::Str("agent-1"@)),
            ("parent_task_id"@, JsonV::Null),
            ("correlation_id"@, JsonV::Str("demo-correlation-1"@)),
        ])),
        (RUNTIME_LLM_REQUEST@, JsonV::Object(seq![
            ("task_id"@, JsonV::Str("task-runtime-1"@)),
            ("request_id"@, JsonV::Null),
            ("model"@, JsonV::Str("mock-model"@)),
            ("prompt"@, JsonV::Str("summarize runtime MVP"@)),
            ("messages"@, JsonV::Array(Seq::empty())),
            ("options"@, JsonV::Object(Seq::empty())),
            ("correlation_id"@, JsonV::Str("demo-correlation-1"@)),
        ])),
        (RUNTIME_TOOL_REQUEST@, JsonV::Object(seq![
            ("task_id"@, JsonV::Str("task-runtime-1"@)),
            ("request_id"@, JsonV::Null),
            ("capability"@, JsonV::Str("tool.echo"@)),
            ("input"@, demo_tool_input()),
            ("timeout_seconds"@, JsonV::Null),
            ("correlation_id"@, JsonV::Str("demo-correlation-1"@)),
        ])),
        (RUNTIME_TASK_RESULT@, JsonV::Object(seq![
            ("task_id"@, JsonV::Str("task-runtime-1"@)),
            ("status"@, JsonV::Str("completed"@)),
            ("result"@, JsonV::Object(seq![("demo"@, JsonV::Str("runtime event flow"@))])),
            ("error"@, JsonV::Null),
            ("correlation_id"@, JsonV::Str("demo-correlation-1"@)),
        ])),
    ]
}

/// The object `{ key: value }`.
fn object1(key: &str, value: Json) -> (r: Json)
    ensures
        r@ == JsonV::Object(seq![(key@, value@)]),
{
    let mut m: Vec<(String, Json)> = Vec::new();
    m.push((owned(key), value));
    let r = Json::Object(m);
    assert(r@->Object_0[0] == (m@[0].0@, m@[0].1@));
    assert(r@->Object_0 =~= seq![(m@[0].0@, m@[0].1@)]);
    r
}

/// The demo's echo input.
fn demo_tool_input_json() -> (r: Json)
    ensures
        r@ == demo_tool_input(),
{
    object1("text", Json::string("runtime MVP"))
}

/// The demo's requests, as subject and payload, in the order they are
/// published.
pub fn demo_requests() -> (r: Vec<(&'static str, Json)>)
    ensures
        r@.map_values(|e: (&'static str, Json)| (e.0@, e.1@)) == demo_requests_spec(),
{
    let task_id = "task-runtime-1";
    let correlation = "demo-correlation-1";
    let prompt = "summarize runtime MVP";
    let mut input_members: Vec<(String, Json)> = Vec::new();
    input_members.push((owned("prompt"), Json::string(prompt)));
    input_members.push((owned("tool_input"), demo_tool_input_json()));
    let input = Json::Object(input_members);
    assert(input@->Object_0[0] == (input_members@[0].0@, input_members@[0].1@));
    assert(input@->Object_0[1] == (input_members@[1].0@, input_members@[1].1@));
    let mut capabilities: Vec<String> = Vec::new();
    capabilities.push(owned("llm"));
    capabilities.push(owned("tool.echo"));
    let assign = RuntimeTaskAssignPayload {
        task_id: owned(task_id),
        input,
        capabilities,
        metadata: object1("demo", Json::Bool(true)),
        agent_id: Some(owned("agent-1")),
        parent_task_id: None,
        correlation_id: Some(owned(correlation)),
    };
    let options = Json::Object(Vec::new());
    assert(options@->Object_0 =~= Seq::<(Seq<char>, JsonV)>::empty());
    let llm = RuntimeLLMRequestPayload {
        task_id: owned(task_id),
        request_id: None,
        model: Some(owned("mock-model")),
        prompt: Some(owned(prompt)),
        messages: Vec::new(),
        options,
        correlation_id: Some(owned(correlation)),
    };
    let tool = RuntimeToolRequestPayload {
        task_id: owned(task_id),
        request_id: None,
        capability: owned("tool.echo"),
        input: demo_tool_input_json(),
        timeout_seconds: None,
        correlation_id: Some(owned(correlation)),
    };
    let result = RuntimeTaskResultPayload {
        task_id: owned(task_id),
        status: owned("completed"),
        result: Some(object1("demo", Json::string("runtime event flow"))),
        error: Json::Null,
        correlation_id: Some(owned(correlation)),
    };
    let mut r: Vec<(&'static str, Json)> = Vec::new();
    r.push((RUNTIME_TASK_ASSIGN, assign.to_json()));
    r.push((RUNTIME_LLM_REQUEST, llm.to_json()));
    r.push((RUNTIME_TOOL_REQUEST, tool.to_json()));
    r.push((RUNTIME_TASK_RESULT, result.to_json()));
    proof {
        let spec = demo_requests_spec();
        let got = r@.map_values(|e: (&'static str, Json)| (e.0@, e.1@));
        assert(input@->Object_0 =~= spec[0].1->Object_0[1].1->Object_0);
        assert(views(assign.capabilities@) =~= seq!["llm"@, "tool.echo"@]);
        assert(str_list_json(views(assign.capabilities@))->Array_0 =~= spec[0].1->Object_0[2].1->Array_0);
        assert(got[0].1->Object_0 =~= spec[0].1->Object_0);
        assert(json_list(llm.messages@)->Array_0 =~= Seq::<JsonV>::empty());
        assert(got[1].1->Object_0 =~= spec[1].1->Object_0);
        assert(got[2].1->Object_0 =~= spec[2].1->Object_0);
        assert(got[3].1->Object_0 =~= spec[3].1->Object_0);
        assert(got =~= spec);
    }
    r
}

/// A line of the demo's report: text, or a JSON value printed compactly.
#[derive(Clone, Debug, PartialEq)]
pub enum ReportLine {
    Text(String),
    Value(Json),
}

/// The view of a report line.
pub enum ReportLineV {
    Text(Seq<char>),
    Value(JsonV),
}

impl ReportLine {
    pub open spec fn view(&self) -> ReportLineV {
        match self {
            ReportLine::Text(s) => ReportLineV::Text(s@),
            ReportLine::Value(v) => ReportLineV::Value(v@),
        }
    }
}

/// What the report shows of an event's outcome: the content of a model
/// reply's message, or the result of a tool reply; nothing for other
/// events.
pub open spec fn outcome_line(e: EventEnvelope) -> Option<ReportLineV> {
    if e.subject@ == RUNTIME_LLM_RESPONSE@ {
        match json_get(e.payload@, "message"@) {
            Some(m) => match json_get(m, "content"@) {
                Some(JsonV::Str(c)) => Some(ReportLineV::Text(c)),
                _ => None,
            },
            None => None,
        }
    } else if e.subject@ == RUNTIME_TOOL_RESULT@ {
        match json_get(e.payload@, "result"@) {
            Some(v) => Some(ReportLineV::Value(v)),
            None => None,
        }
    } else {
        None
    }
}

/// The outcome lines of the events, in order.
pub open spec fn outcome_lines(events: Seq<EventEnvelope>) -> Seq<ReportLineV>
    decreases events.len(),
{
    if events.len() == 0 {
        Seq::empty()
    } else {
        let rest = outcome_lines(events.drop_last());
        match outcome_line(events.last()) {
            Some(l) => rest.push(l),
            None => rest,
        }
    }
}

/// The line that shows an event's flow: its subject and source.
pub open spec fn flow_line(e: EventEnvelope) -> ReportLineV {
    ReportLineV::Text(e.subject@ + " "@ + e.source@)
}

/// The demo's report: a heading, one flow line per published event, then
/// the outcome lines.
pub open spec fn demo_report_spec(events: Seq<EventEnvelope>) -> Seq<ReportLineV> {
    seq![ReportLineV::Text("Runtime Event Flow"@)] + events.map_values(|e: EventEnvelope| flow_line(e))
        + outcome_lines(events)
}

/// The outcome line of one event.
fn outcome_of(e: &EventEnvelope) -> (r: Option<ReportLine>)
    ensures
        match r {
            Some(l) => outcome_line(*e) == Some(l@),
            None => outcome_line(*e) is None,
        },
{
    if str_eq(e.subject.as_str(), RUNTIME_LLM_RESPONSE) {
        match e.payload.get("message") {
            Some(m) => match m.get("content") {
                Some(c) => match c.as_str() {
                    Some(s) => Some(ReportLine::Text(s.clone())),
                    None => None,
                },
                None => None,
            },
            None => None,
        }
    } else if str_eq(e.subject.as_str(), RUNTIME_TOOL_RESULT) {
        match e.payload.get("result") {
            Some(v) => Some(ReportLine::Value(v.deep_clone())),
            None => None,
        }
    } else {
        None
    }
}

/// The demo's report of the events published during the demo.
pub fn demo_report(events: &Vec<EventEnvelope>) -> (r: Vec<ReportLine>)
    ensures
        r@.map_values(|l: ReportLine| l@) == demo_report_spec(events@),
{
    let mut r: Vec<ReportLine> = Vec::new();
    r.push(ReportLine::Text(owned("Runtime Event Flow")));
    let mut i: usize = 0;
    while i < events.len()
        invariant
            i <= events.len(),
            r@.map_values(|l: ReportLine| l@) == seq![ReportLineV::Text("Runtime Event Flow"@)]
                + events@.subrange(0, i as int).map_values(|e: EventEnvelope| flow_line(e)),
        decreases events.len() - i,
    {
        let ghost before = r@;
        let line = concat3(events[i].subject.as_str(), " ", events[i].source.as_str());
        r.push(ReportLine::Text(line));
        assert(events@.subrange(0, i + 1).map_values(|e: EventEnvelope| flow_line(e)) =~= events@.subrange(
            0,
            i as int,
        ).map_values(|e: EventEnvelope| flow_line(e)).push(flow_line(events@[i as int])));
        assert(r@.map_values(|l: ReportLine| l@) =~= before.map_values(|l: ReportLine| l@).push(
            flow_line(events@[i as int]),
        ));
        i = i + 1;
    }
    assert(events@.subrange(0, events.len() as int) =~= events@);
    let ghost head = r@.map_values(|l: ReportLine| l@);
    let mut k: usize = 0;
    while k < events.len()
        invariant
            k <= events.len(),
            r@.map_values(|l: ReportLine| l@) == head + outcome_lines(events@.subrange(0, k as int)),
        decreases events.len() - k,
    {
        let ghost before = r@;
        assert(events@.subrange(0, k + 1).drop_last() =~= events@.subrange(0, k as int));
        assert(events@.subrange(0, k + 1).last() == events@[k as int]);
        match outcome_of(&events[k]) {
            Some(l) => {
                r.push(l);
                assert(r@.map_values(|l: ReportLine| l@) =~= before.map_values(|l: ReportLine| l@).push(
                    l@,
                ));
                assert(head + outcome_lines(events@.subrange(0, k + 1)) =~= (head + outcome_lines(
                    events@.subrange(0, k as int),
                )).push(l@));
            },
            None => {},
        }
        k = k + 1;
    }
    assert(events@.subrange(0, events.len() as int) =~= events@);
    r
}

} // verus!
