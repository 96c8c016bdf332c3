//! The check-workflow client's decision logic. The registry is polled on a
//! fixed cadence until the workflow leaves its pending state or a
//! caller-supplied timeout elapses; the reply is then distilled into one
//! check response. The polling shell performs the network calls; every
//! decision it takes, and the whole distillation of the reply, is here.

use vstd::prelude::*;
use crate::options::GraphRef;

verus! {

/// The polling cadence, in seconds.
pub const POLL_INTERVAL_SECONDS: u64 = 5;

/// Failures surfaced by the registry path.
#[derive(Debug, Clone, PartialEq, Eq)]
pub enum RegistryError {
    /// The registry has no such graph (or no workflow for it).
    GraphNotFound { graph_ref: GraphRef },
}

/// Where a check workflow stands.
#[derive(Debug, Clone, PartialEq, Eq)]
pub enum CheckWorkflowStatus {
    Passed,
    Failed,
    Pending,
}

/// How one schema change was judged.
#[derive(Debug, Clone, PartialEq, Eq)]
pub enum ChangeSeverity {
    Pass,
    Fail,
}

/// One schema change reported by the operations check.
#[derive(Debug, Clone, PartialEq, Eq)]
pub struct SchemaChange {
    pub code: String,
    pub severity: ChangeSeverity,
    pub description: String,
}

/// The outcome of the operations check task.
#[derive(Debug, Clone, PartialEq, Eq)]
pub struct OperationCheckResult {
    pub number_of_checked_operations: u64,
    pub changes: Vec<SchemaChange>,
}

/// The operations check task of a workflow.
#[derive(Debug, Clone, PartialEq, Eq)]
pub struct OperationsCheckTask {
    pub target_url: Option<String>,
    pub result: Option<OperationCheckResult>,
}

/// One task of a workflow; only the operations check is read here.
#[derive(Debug, Clone, PartialEq, Eq)]
pub enum WorkflowTask {
    OperationsCheck(OperationsCheckTask),
    Other,
}

/// One check workflow: its status and its tasks.
#[derive(Debug, Clone, PartialEq, Eq)]
pub struct CheckWorkflow {
    pub status: CheckWorkflowStatus,
    pub tasks: Vec<WorkflowTask>,
}

/// The graph object of a workflow reply.
#[derive(Debug, Clone, PartialEq, Eq)]
pub struct QueryGraph {
    pub check_workflow: Option<CheckWorkflow>,
}

/// One workflow reply from the registry.
#[derive(Debug, Clone, PartialEq, Eq)]
pub struct QueryResponseData {
    pub graph: Option<QueryGraph>,
}

/// The distilled result handed back to the caller.
#[derive(Debug, Clone, PartialEq, Eq)]
pub struct CheckResponse {
    pub target_url: Option<String>,
    pub number_of_checked_operations: u64,
    pub changes: Vec<SchemaChange>,
    pub status: CheckWorkflowStatus,
    pub graph_ref: GraphRef,
    pub core_schema_modified: bool,
}

/// What the poller does next.
pub enum PollOutcome {
    /// The workflow left its pending state: stop and distill the reply.
    Ready,
    /// Still pending and within the timeout: sleep one interval and ask
    /// again.
    KeepWaiting,
    /// Still pending past the timeout: stop; the caller degrades this to a
    /// warning rather than an error.
    TimedOut,
}

/// The workflow of a reply, if the reply has one.
pub open spec fn spec_workflow_of(data: QueryResponseData) -> Option<CheckWorkflow> {
    match data.graph {
        Option::Some(g) => g.check_workflow,
        Option::None => Option::None,
    }
}

/// The target url reported by the last operations check task, if any task
/// is one.
pub open spec fn spec_target_url(tasks: Seq<WorkflowTask>) -> Option<String>
    decreases tasks.len(),
{
    if tasks.len() == 0 {
        Option::None
    } else {
        match tasks.last() {
            WorkflowTask::OperationsCheck(t) => t.target_url,
            WorkflowTask::Other => spec_target_url(tasks.drop_last()),
        }
    }
}

/// The outcome of the last operations check task that carries one.
pub open spec fn spec_ops_result(tasks: Seq<WorkflowTask>) -> Option<OperationCheckResult>
    decreases tasks.len(),
{
    if tasks.len() == 0 {
        Option::None
    } else {
        match tasks.last() {
            WorkflowTask::OperationsCheck(t) => if t.result is Some {
                t.result
            } else {
                spec_ops_result(tasks.drop_last())
            },
            WorkflowTask::Other => spec_ops_result(tasks.drop_last()),
        }
    }
}

/// One polling decision: stop the moment the workflow has a status other
/// than pending; keep waiting while it is pending (or missing) within the
/// timeout; give up past the timeout.
pub fn next_poll_action(
    workflow_status: Option<CheckWorkflowStatus>,
    elapsed_seconds: u64,
    timeout_seconds: u64,
) -> (r: PollOutcome)
    ensures
        (workflow_status matches Some(s) && !(s is Pending)) ==> r is Ready,
        (workflow_status is None || workflow_status matches Some(
            CheckWorkflowStatus::Pending,
        )) ==> (if elapsed_seconds > timeout_seconds {
            r is TimedOut
        } else {
            r is KeepWaiting
        }),
{
    let still_pending = match workflow_status {
        Option::Some(CheckWorkflowStatus::Pending) => true,
        Option::Some(_) => false,
        Option::None => true,
    };
    if !still_pending {
        PollOutcome::Ready
    } else if elapsed_seconds > timeout_seconds {
        PollOutcome::TimedOut
    } else {
        PollOutcome::KeepWaiting
    }
}

/// Distill one workflow reply into a check response: a missing graph or
/// workflow is "graph not found"; otherwise the last operations check task
/// supplies the target url, and the last one carrying a result supplies the
/// operation count and the changes.
pub fn get_check_response_from_data(data: QueryResponseData, graph_ref: GraphRef) -> (r: Result<
    CheckResponse,
    RegistryError,
>)
    ensures
        r is Err <==> spec_workflow_of(data) is None,
        r matches Err(e) ==> e matches RegistryError::GraphNotFound { graph_ref: g } && g
            == graph_ref,
        r matches Ok(c) ==> (spec_workflow_of(data) matches Some(w) && {
            &&& c.status == w.status
            &&& c.graph_ref == graph_ref
            &&& c.core_schema_modified == false
            &&& c.target_url == spec_target_url(w.tasks@)
            &&& (spec_ops_result(w.tasks@) matches Some(res)
                ==> c.number_of_checked_operations == res.number_of_checked_operations
                    && c.changes == res.changes)
            &&& (spec_ops_result(w.tasks@) is None ==> c.number_of_checked_operations == 0
                && c.changes@.len() == 0)
        }),
{
    let graph = match data.graph {
        Option::Some(g) => g,
        Option::None => {
            return Err(RegistryError::GraphNotFound { graph_ref });
        },
    };
    let workflow = match graph.check_workflow {
        Option::Some(w) => w,
        Option::None => {
            return Err(RegistryError::GraphNotFound { graph_ref });
        },
    };
    let ghost all_tasks = workflow.tasks@;
    let status = workflow.status;
    let mut tasks = workflow.tasks;
    let mut target_url: Option<String> = Option::None;
    let mut found_target = false;
    let mut ops: Option<OperationCheckResult> = Option::None;
    while tasks.len() > 0
        invariant
            spec_target_url(all_tasks) == (if found_target {
                target_url
            } else {
                spec_target_url(tasks@)
            }),
            spec_ops_result(all_tasks) == (if ops is Some {
                ops
            } else {
                spec_ops_result(tasks@)
            }),
            !found_target ==> target_url is None,
        decreases tasks@.len(),
    {
        let task = tasks.pop().unwrap();
        match task {
            WorkflowTask::OperationsCheck(t) => {
                if !found_target {
                    target_url = t.target_url;
                    found_target = true;
                }
                if ops.is_none() {
                    if t.result.is_some() {
                        ops = t.result;
                    }
                }
            },
            WorkflowTask::Other => {},
        }
    }
    let (number_of_checked_operations, changes) = match ops {
        Option::Some(res) => (res.number_of_checked_operations, res.changes),
        Option::None => (0u64, Vec::new()),
    };
    Ok(
        CheckResponse {
            target_url,
            number_of_checked_operations,
            changes,
            status,
            graph_ref,
            core_schema_modified: false,
        },
    )
}

} // verus!
