use thalamus::cli::{demo_report, demo_requests, runtime_failed, CLICommand, CliError, ReportLine, ThalamusCLI};
use thalamus::json::Json;
use thalamus::protocol::message::EventEnvelope;
use thalamus::runtime::error::RuntimeError;

fn envelope(subject: &str, source: &str, payload: Json) -> EventEnvelope {
    EventEnvelope {
        id: "e".to_string(),
        event_type: subject.to_string(),
        subject: subject.to_string(),
        source: source.to_string(),
        timestamp: "t".to_string(),
        schema: "s".to_string(),
        scope: None,
        refs: None,
        payload,
        correlation_id: None,
        causation_id: None,
        metadata: Json::Object(vec![]),
    }
}

fn obj(members: Vec<(&str, Json)>) -> Json {
    Json::Object(members.into_iter().map(|(k, v)| (k.to_string(), v)).collect())
}

#[test]
fn contract_parses_status_subcommand() {
    let cli = ThalamusCLI::parse_from(&["thalamus", "status"]).unwrap();
    assert!(!cli.verbose);
    assert!(matches!(cli.command, CLICommand::Status));
}

#[test]
fn contract_parses_verbose_start_with_custom_config() {
    let cli = ThalamusCLI::parse_from(&["thalamus", "--verbose", "start", "--config", "custom.yaml"]).unwrap();
    assert!(cli.verbose);
    match cli.command {
        CLICommand::Start { config } => assert_eq!(config, "custom.yaml"),
        other => panic!("expected start command, got {other:?}"),
    }
}

#[test]
fn list_agents_parses_and_reports_no_agents() {
    let cli = ThalamusCLI::parse_from(&["thalamus", "list-agents"]).unwrap();
    assert!(!cli.verbose);
    assert!(matches!(cli.command, CLICommand::ListAgents));
    assert_eq!(cli.report(), Some("No agents registered".to_string()));
}

#[test]
fn run_demo_parses_without_report() {
    let cli = ThalamusCLI::parse_from(&["thalamus", "run-demo"]).unwrap();
    assert!(!cli.verbose);
    assert!(matches!(cli.command, CLICommand::RunDemo));
    assert_eq!(cli.report(), None);
    assert_eq!(cli.progress_message(), None);
}

#[test]
fn status_reports_initialized_runtime() {
    let cli = ThalamusCLI::parse_from(&["thalamus", "--verbose", "status"]).unwrap();
    assert_eq!(cli.progress_message(), Some("Checking runtime status".to_string()));
    assert_eq!(cli.report(), Some("Runtime status: initialized".to_string()));
}

#[test]
fn stop_reports_runtime_stopped() {
    let cli = ThalamusCLI::parse_from(&["thalamus", "--verbose", "stop"]).unwrap();
    assert_eq!(cli.progress_message(), Some("Stopping runtime".to_string()));
    assert_eq!(cli.report(), Some("Runtime stopped".to_string()));
}

#[test]
fn verbose_list_agents_announces_listing() {
    let cli = ThalamusCLI::new(&["thalamus-cli", "--verbose", "list-agents"]).unwrap();
    assert_eq!(cli.progress_message(), Some("Listing available agents".to_string()));
}

#[test]
fn start_config_forms_and_default() {
    let forms: [&[&str]; 5] = [
        &["thalamus", "start", "-c", "a.yaml"],
        &["thalamus", "start", "--config", "a.yaml"],
        &["thalamus", "start", "--config=a.yaml"],
        &["thalamus", "start", "-c=a.yaml"],
        &["thalamus", "start", "-ca.yaml"],
    ];
    for args in forms {
        let cli = ThalamusCLI::parse_from(args).unwrap();
        assert_eq!(cli.command, CLICommand::Start { config: "a.yaml".to_string() });
    }
    let cli = ThalamusCLI::parse_from(&["thalamus", "-v", "start"]).unwrap();
    assert_eq!(cli.command, CLICommand::Start { config: "config.yaml".to_string() });
    assert_eq!(cli.progress_message(), Some("Starting runtime with config: config.yaml".to_string()));
}

#[test]
fn parse_errors_name_the_problem() {
    let err = |args: &[&str]| match ThalamusCLI::parse_from(args) {
        Err(CliError::ParseError(m)) => m,
        other => panic!("expected a parse error, got {other:?}"),
    };
    assert_eq!(err(&["thalamus"]), "'thalamus' requires a subcommand but one was not provided");
    assert_eq!(err(&[]), "'thalamus' requires a subcommand but one was not provided");
    assert_eq!(err(&["thalamus", "-v", "--verbose", "status"]), "the argument '--verbose' cannot be used multiple times");
    assert_eq!(err(&["thalamus", "launch"]), "unrecognized subcommand 'launch'");
    assert_eq!(err(&["thalamus", "--fast", "status"]), "unexpected argument '--fast' found");
    assert_eq!(err(&["thalamus", "status", "now"]), "unexpected argument 'now' found");
    assert_eq!(err(&["thalamus", "start", "--config"]), "a value is required for '--config <CONFIG>' but none was supplied");
    assert_eq!(
        err(&["thalamus", "start", "-c", "a", "--config=b"]),
        "the argument '--config <CONFIG>' cannot be used multiple times"
    );
    assert_eq!(err(&["thalamus", "status", "--verbose"]), "unexpected argument '--verbose' found");
}

#[test]
fn cli_error_messages() {
    assert_eq!(CliError::ParseError("p".to_string()).message(), "Parse error: p");
    assert_eq!(CliError::IoError("i".to_string()).message(), "IO error: i");
    let e = runtime_failed(&RuntimeError::LifecycleError("already running".to_string()));
    assert_eq!(e.message(), "Runtime error: lifecycle error: already running");
}

#[test]
fn demo_requests_are_the_four_steps() {
    let requests = demo_requests();
    let subjects: Vec<&str> = requests.iter().map(|(s, _)| *s).collect();
    assert_eq!(subjects, vec!["runtime.task.assign", "runtime.llm.request", "runtime.tool.request", "runtime.task.result"]);
    assert_eq!(requests[1].1.get("prompt"), Some(&Json::Str("summarize runtime MVP".to_string())));
    assert_eq!(requests[2].1.get("input"), Some(&obj(vec![("text", Json::Str("runtime MVP".to_string()))])));
    assert_eq!(requests[0].1.get("agent_id"), Some(&Json::Str("agent-1".to_string())));
}

#[test]
fn demo_report_shows_flow_and_outcomes() {
    let events = vec![
        envelope("runtime.llm.request", "thalamus-cli", obj(vec![])),
        envelope(
            "runtime.llm.response",
            "thalamus-runtime",
            obj(vec![("message", obj(vec![("content", Json::Str("Mock response: summarize runtime MVP".to_string()))]))]),
        ),
        envelope(
            "runtime.tool.result",
            "thalamus-runtime",
            obj(vec![("result", obj(vec![("text", Json::Str("runtime MVP".to_string()))]))]),
        ),
    ];
    let report = demo_report(&events);
    assert_eq!(
        report,
        vec![
            ReportLine::Text("Runtime Event Flow".to_string()),
            ReportLine::Text("runtime.llm.request thalamus-cli".to_string()),
            ReportLine::Text("runtime.llm.response thalamus-runtime".to_string()),
            ReportLine::Text("runtime.tool.result thalamus-runtime".to_string()),
            ReportLine::Text("Mock response: summarize runtime MVP".to_string()),
            ReportLine::Value(obj(vec![("text", Json::Str("runtime MVP".to_string()))])),
        ]
    );
}

#[test]
fn help_is_displayed_on_request() {
    let help = |args: &[&str]| match ThalamusCLI::parse_from(args) {
        Err(CliError::DisplayHelp(text)) => text,
        other => panic!("expected help, got {other:?}"),
    };
    let top = help(&["thalamus", "--help"]);
    assert!(top.starts_with("Thalamus Agent Runtime CLI\n\nUsage: thalamus [OPTIONS] <COMMAND>"));
    assert!(top.contains("  list-agents  List available agents\n"));
    assert_eq!(help(&["thalamus", "-h"]), top);
    assert_eq!(help(&["thalamus", "-v", "help"]), top);
    let start = help(&["thalamus", "start", "--help"]);
    assert!(start.contains("-c, --config <CONFIG>  Configuration file path [default: config.yaml]"));
    assert_eq!(help(&["thalamus", "help", "start"]), start);
    assert_eq!(help(&["thalamus", "start", "-c", "x.yaml", "-h"]), start);
    assert!(help(&["thalamus", "stop", "-h"]).starts_with("Stop the runtime\n"));
    assert_eq!(help(&["thalamus", "help", "run-demo"]), help(&["thalamus", "run-demo", "--help"]));
    match ThalamusCLI::parse_from(&["thalamus", "help", "launch"]) {
        Err(CliError::ParseError(m)) => assert_eq!(m, "unrecognized subcommand 'launch'"),
        other => panic!("unexpected {other:?}"),
    }
    assert_eq!(CliError::DisplayHelp("text".to_string()).message(), "text");
}
