//! The closed sets of states that the orchestrator records for DAG runs and
//! for task attempts, decoded from and encoded to its status tokens.

use vstd::prelude::*;
use crate::text::same_text;

verus! {

/// The states a DAG run can be in.
#[derive(Clone, Copy, Debug, PartialEq, Eq, Structural, Hash)]
pub enum DagState {
    Failed,
    Queued,
    Running,
    Success,
}

impl DagState {
    /// The status token the orchestrator stores for this state.
    pub open spec fn token(self) -> Seq<char> {
        match self {
            DagState::Failed => "failed"@,
            DagState::Queued => "queued"@,
            DagState::Running => "running"@,
            DagState::Success => "success"@,
        }
    }

    /// The status token of this state, also its display form.
    pub fn as_str(&self) -> (r: &'static str)
        ensures
            r@ == self.token(),
    {
        match self {
            DagState::Failed => "failed",
            DagState::Queued => "queued",
            DagState::Running => "running",
            DagState::Success => "success",
        }
    }

    /// The display form of this state, as an owned string.
    pub fn to_string(&self) -> (r: String)
        ensures
            r@ == self.token(),
    {
        self.as_str().to_owned()
    }

    /// Decodes a status token; any other text is no DAG run state.
    pub fn from_str(text: &str) -> (r: Result<DagState, ()>)
        ensures
            r == dag_state_of(text@),
    {
        if same_text(text, "failed") {
            Ok(DagState::Failed)
        } else if same_text(text, "queued") {
            Ok(DagState::Queued)
        } else if same_text(text, "running") {
            Ok(DagState::Running)
        } else if same_text(text, "success") {
            Ok(DagState::Success)
        } else {
            Err(())
        }
    }
}

/// The DAG run state whose token is `t`, if any.
pub open spec fn dag_state_of(t: Seq<char>) -> Result<DagState, ()> {
    if t == "failed"@ {
        Ok(DagState::Failed)
    } else if t == "queued"@ {
        Ok(DagState::Queued)
    } else if t == "running"@ {
        Ok(DagState::Running)
    } else if t == "success"@ {
        Ok(DagState::Success)
    } else {
        Err(())
    }
}

/// Decoding the encoding of a DAG run state gives that state back.
pub proof fn lemma_dag_state_round_trip(s: DagState)
    ensures
        dag_state_of(s.token()) == Ok::<DagState, ()>(s),
{
    reveal_strlit("failed");
    reveal_strlit("queued");
    reveal_strlit("running");
    reveal_strlit("success");
    assert("queued"@[0] != "failed"@[0]);
    assert("running"@.len() != "failed"@.len());
    assert("running"@[0] != "queued"@[0]);
    assert("success"@[0] != "failed"@[0]);
    assert("success"@[0] != "queued"@[0]);
    assert("success"@[0] != "running"@[0]);
}

} // verus!

verus! {

/// The states a task attempt can be in.
#[derive(Clone, Copy, Debug, PartialEq, Eq, Structural, Hash)]
pub enum TaskState {
    Deferred,
    Failed,
    Queued,
    Removed,
    Restarting,
    Running,
    Scheduled,
    Skipped,
    Success,
    UpForReschedule,
    UpForRetry,
    UpstreamFailed,
}

impl TaskState {
    /// The status token the orchestrator stores for this state.
    pub open spec fn token(self) -> Seq<char> {
        match self {
            TaskState::Deferred => "deferred"@,
            TaskState::Failed => "failed"@,
            TaskState::Queued => "queued"@,
            TaskState::Removed => "removed"@,
            TaskState::Restarting => "restarting"@,
            TaskState::Running => "running"@,
            TaskState::Scheduled => "scheduled"@,
            TaskState::Skipped => "skipped"@,
            TaskState::Success => "success"@,
            TaskState::UpForReschedule => "up_for_reschedule"@,
            TaskState::UpForRetry => "up_for_retry"@,
            TaskState::UpstreamFailed => "upstream_failed"@,
        }
    }

    /// The status token of this state, also its display form.
    pub fn as_str(&self) -> (r: &'static str)
        ensures
            r@ == self.token(),
    {
        match self {
            TaskState::Deferred => "deferred",
            TaskState::Failed => "failed",
            TaskState::Queued => "queued",
            TaskState::Removed => "removed",
            TaskState::Restarting => "restarting",
            TaskState::Running => "running",
            TaskState::Scheduled => "scheduled",
            TaskState::Skipped => "skipped",
            TaskState::Success => "success",
            TaskState::UpForReschedule => "up_for_reschedule",
            TaskState::UpForRetry => "up_for_retry",
            TaskState::UpstreamFailed => "upstream_failed",
        }
    }

    /// The display form of this state, as an owned string.
    pub fn to_string(&self) -> (r: String)
        ensures
            r@ == self.token(),
    {
        self.as_str().to_owned()
    }

    /// Decodes a status token; any other text is no task state.
    pub fn from_str(text: &str) -> (r: Result<TaskState, ()>)
        ensures
            r == task_state_of(text@),
    {
        if same_text(text, "deferred") {
            Ok(TaskState::Deferred)
        } else if same_text(text, "failed") {
            Ok(TaskState::Failed)
        } else if same_text(text, "queued") {
            Ok(TaskState::Queued)
        } else if same_text(text, "removed") {
            Ok(TaskState::Removed)
        } else if same_text(text, "restarting") {
            Ok(TaskState::Restarting)
        } else if same_text(text, "running") {
            Ok(TaskState::Running)
        } else if same_text(text, "scheduled") {
            Ok(TaskState::Scheduled)
        } else if same_text(text, "skipped") {
            Ok(TaskState::Skipped)
        } else if same_text(text, "success") {
            Ok(TaskState::Success)
        } else if same_text(text, "up_for_reschedule") {
            Ok(TaskState::UpForReschedule)
        } else if same_text(text, "up_for_retry") {
            Ok(TaskState::UpForRetry)
        } else if same_text(text, "upstream_failed") {
            Ok(TaskState::UpstreamFailed)
        } else {
            Err(())
        }
    }
}

/// The task state whose token is `t`, if any.
pub open spec fn task_state_of(t: Seq<char>) -> Result<TaskState, ()> {
    if t == "deferred"@ {
        Ok(TaskState::Deferred)
    } else if t == "failed"@ {
        Ok(TaskState::Failed)
    } else if t == "queued"@ {
        Ok(TaskState::Queued)
    } else if t == "removed"@ {
        Ok(TaskState::Removed)
    } else if t == "restarting"@ {
        Ok(TaskState::Restarting)
    } else if t == "running"@ {
        Ok(TaskState::Running)
    } else if t == "scheduled"@ {
        Ok(TaskState::Scheduled)
    } else if t == "skipped"@ {
        Ok(TaskState::Skipped)
    } else if t == "success"@ {
        Ok(TaskState::Success)
    } else if t == "up_for_reschedule"@ {
        Ok(TaskState::UpForReschedule)
    } else if t == "up_for_retry"@ {
        Ok(TaskState::UpForRetry)
    } else if t == "upstream_failed"@ {
        Ok(TaskState::UpstreamFailed)
    } else {
        Err(())
    }
}

/// Decoding the encoding of a task state gives that state back.
pub proof fn lemma_task_state_round_trip(s: TaskState)
    ensures
        task_state_of(s.token()) == Ok::<TaskState, ()>(s),
{
    reveal_strlit("deferred");
    reveal_strlit("failed");
    reveal_strlit("queued");
    reveal_strlit("removed");
    reveal_strlit("restarting");
    reveal_strlit("running");
    reveal_strlit("scheduled");
    reveal_strlit("skipped");
    reveal_strlit("success");
    reveal_strlit("up_for_reschedule");
    reveal_strlit("up_for_retry");
    reveal_strlit("upstream_failed");
    assert("deferred"@.len() == 8 && "failed"@.len() == 6 && "queued"@.len() == 6);
    assert("removed"@.len() == 7 && "restarting"@.len() == 10 && "running"@.len() == 7);
    assert("scheduled"@.len() == 9 && "skipped"@.len() == 7 && "success"@.len() == 7);
    assert("up_for_reschedule"@.len() == 17 && "up_for_retry"@.len() == 12);
    assert("upstream_failed"@.len() == 15);
    // Tokens of one length differ in their first or second character.
    assert("queued"@[0] != "failed"@[0]);
    assert("running"@[1] != "removed"@[1]);
    assert("skipped"@[0] != "removed"@[0]);
    assert("skipped"@[0] != "running"@[0]);
    assert("success"@[0] != "removed"@[0]);
    assert("success"@[0] != "running"@[0]);
    assert("success"@[1] != "skipped"@[1]);
}

/// The badge style shown for a DAG run state.
pub open spec fn dag_badge(s: DagState) -> Seq<char> {
    match s {
        DagState::Failed => "badge-error"@,
        DagState::Queued => "badge-neutral"@,
        DagState::Running => "badge-primary"@,
        DagState::Success => "badge-success"@,
    }
}

/// The badge style shown for a task state.
pub open spec fn task_badge(s: TaskState) -> Seq<char> {
    match s {
        TaskState::Deferred => "badge-info"@,
        TaskState::Failed => "badge-error"@,
        TaskState::Queued => "badge-neutral"@,
        TaskState::Removed => "badge-neutral"@,
        TaskState::Restarting => "badge-secondary"@,
        TaskState::Running => "badge-primary"@,
        TaskState::Scheduled => "badge-neutral"@,
        TaskState::Skipped => "badge-neutral"@,
        TaskState::Success => "badge-success"@,
        TaskState::UpForReschedule => "badge-warning"@,
        TaskState::UpForRetry => "badge-warning"@,
        TaskState::UpstreamFailed => "badge-warning"@,
    }
}

/// Translates a DAG run state to the badge style it is shown with.
pub fn dag_state_badge_type(state: &DagState) -> (r: &'static str)
    ensures
        r@ == dag_badge(*state),
{
    match state {
        DagState::Failed => "badge-error",
        DagState::Queued => "badge-neutral",
        DagState::Running => "badge-primary",
        DagState::Success => "badge-success",
    }
}

/// Translates a task state to the badge style it is shown with.
pub fn task_state_badge_type(state: &TaskState) -> (r: &'static str)
    ensures
        r@ == task_badge(*state),
{
    match state {
        TaskState::Deferred => "badge-info",
        TaskState::Failed => "badge-error",
        TaskState::Queued => "badge-neutral",
        TaskState::Removed => "badge-neutral",
        TaskState::Restarting => "badge-secondary",
        TaskState::Running => "badge-primary",
        TaskState::Scheduled => "badge-neutral",
        TaskState::Skipped => "badge-neutral",
        TaskState::Success => "badge-success",
        TaskState::UpForReschedule => "badge-warning",
        TaskState::UpForRetry => "badge-warning",
        TaskState::UpstreamFailed => "badge-warning",
    }
}

} // verus!
