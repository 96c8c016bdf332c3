//! The command-layer logic: docs shortlinks, the check-workflow poller's
//! decisions, and the distillation of a workflow reply.

use rover::check_workflow::{
    get_check_response_from_data, next_poll_action, CheckWorkflow, CheckWorkflowStatus,
    OperationCheckResult, OperationsCheckTask, PollOutcome, QueryGraph, QueryResponseData,
    RegistryError, SchemaChange, ChangeSeverity, WorkflowTask,
};
use rover::docs::{possible_shortlinks, url_from_slug, Command, Docs, List, Open};
use rover::options::{GraphRef, ProfileOpt};
use rover::output::RoverOutput;

fn graph_ref() -> GraphRef {
    GraphRef { name: "my-graph".to_string(), variant: "current".to_string() }
}

#[test]
fn docs_list_names_every_shortlink() {
    let docs = Docs { command: Command::List(List {}) };
    match docs.run() {
        RoverOutput::DocsList { shortlinks } => {
            let slugs: Vec<&str> = shortlinks.iter().map(|p| p.0.as_str()).collect();
            assert_eq!(slugs, vec!["docs", "api-keys", "contributing", "start"]);
        },
        other => panic!("expected a docs list, got {:?}", other),
    }
    assert_eq!(possible_shortlinks().len(), 4);
}

#[test]
fn docs_open_computes_the_url() {
    let docs = Docs { command: Command::Open(Open { slug: "api-keys".to_string() }) };
    assert_eq!(
        docs.run(),
        RoverOutput::OpenUrl { url: "https://go.apollo.dev/r/api-keys".to_string() }
    );
    assert_eq!(url_from_slug("docs"), "https://go.apollo.dev/r/docs");
}

#[test]
fn profile_opt_displays_its_name() {
    let profile = ProfileOpt { profile_name: "default".to_string() };
    assert_eq!(profile.display_name(), "default");
}

#[test]
fn poller_stops_when_workflow_leaves_pending() {
    assert!(matches!(
        next_poll_action(Some(CheckWorkflowStatus::Passed), 0, 300),
        PollOutcome::Ready
    ));
    assert!(matches!(
        next_poll_action(Some(CheckWorkflowStatus::Failed), 299, 300),
        PollOutcome::Ready
    ));
}

#[test]
fn poller_waits_while_pending_and_times_out_past_the_deadline() {
    assert!(matches!(
        next_poll_action(Some(CheckWorkflowStatus::Pending), 300, 300),
        PollOutcome::KeepWaiting
    ));
    assert!(matches!(next_poll_action(None, 5, 300), PollOutcome::KeepWaiting));
    assert!(matches!(
        next_poll_action(Some(CheckWorkflowStatus::Pending), 301, 300),
        PollOutcome::TimedOut
    ));
    assert!(matches!(next_poll_action(None, 301, 300), PollOutcome::TimedOut));
}

#[test]
fn missing_graph_or_workflow_is_graph_not_found() {
    let err = get_check_response_from_data(QueryResponseData { graph: None }, graph_ref());
    assert_eq!(err, Err(RegistryError::GraphNotFound { graph_ref: graph_ref() }));
    let err = get_check_response_from_data(
        QueryResponseData { graph: Some(QueryGraph { check_workflow: None }) },
        graph_ref(),
    );
    assert_eq!(err, Err(RegistryError::GraphNotFound { graph_ref: graph_ref() }));
}

#[test]
fn check_response_takes_the_last_operations_task() {
    let change = SchemaChange {
        code: "FIELD_REMOVED".to_string(),
        severity: ChangeSeverity::Fail,
        description: "field `x` was removed".to_string(),
    };
    let tasks = vec![
        WorkflowTask::Other,
        WorkflowTask::OperationsCheck(OperationsCheckTask {
            target_url: Some("http://example.invalid/first".to_string()),
            result: Some(OperationCheckResult {
                number_of_checked_operations: 7,
                changes: vec![change.clone()],
            }),
        }),
        WorkflowTask::OperationsCheck(OperationsCheckTask {
            target_url: Some("http://example.invalid/second".to_string()),
            result: None,
        }),
    ];
    let data = QueryResponseData {
        graph: Some(QueryGraph {
            check_workflow: Some(CheckWorkflow { status: CheckWorkflowStatus::Failed, tasks }),
        }),
    };
    let response = get_check_response_from_data(data, graph_ref()).unwrap();
    // the last operations task supplies the url, the last one carrying a
    // result supplies the count and the changes
    assert_eq!(response.target_url, Some("http://example.invalid/second".to_string()));
    assert_eq!(response.number_of_checked_operations, 7);
    assert_eq!(response.changes, vec![change]);
    assert_eq!(response.status, CheckWorkflowStatus::Failed);
    assert_eq!(response.graph_ref, graph_ref());
    assert!(!response.core_schema_modified);
}

#[test]
fn check_response_without_operations_task_is_empty() {
    let data = QueryResponseData {
        graph: Some(QueryGraph {
            check_workflow: Some(CheckWorkflow {
                status: CheckWorkflowStatus::Passed,
                tasks: vec![WorkflowTask::Other],
            }),
        }),
    };
    let response = get_check_response_from_data(data, graph_ref()).unwrap();
    assert_eq!(response.target_url, None);
    assert_eq!(response.number_of_checked_operations, 0);
    assert!(response.changes.is_empty());
}
