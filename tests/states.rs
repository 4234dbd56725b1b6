use kyubey::state::{dag_state_badge_type, task_state_badge_type, DagState, TaskState};

fn dag_states() -> [DagState; 4] {
    [DagState::Failed, DagState::Queued, DagState::Running, DagState::Success]
}

fn task_states() -> [TaskState; 12] {
    [
    TaskState::Deferred,
    TaskState::Failed,
    TaskState::Queued,
    TaskState::Removed,
    TaskState::Restarting,
    TaskState::Running,
    TaskState::Scheduled,
    TaskState::Skipped,
    TaskState::Success,
    TaskState::UpForReschedule,
    TaskState::UpForRetry,
    TaskState::UpstreamFailed,
    ]
}

#[test]
fn dag_state_decodes_each_token() {
    assert_eq!(DagState::from_str("failed"), Ok(DagState::Failed));
    assert_eq!(DagState::from_str("queued"), Ok(DagState::Queued));
    assert_eq!(DagState::from_str("running"), Ok(DagState::Running));
    assert_eq!(DagState::from_str("success"), Ok(DagState::Success));
}

#[test]
fn dag_state_rejects_unknown_tokens() {
    assert_eq!(DagState::from_str(""), Err(()));
    assert_eq!(DagState::from_str("Running"), Err(()));
    assert_eq!(DagState::from_str("runnning"), Err(()));
    assert_eq!(DagState::from_str("up_for_retry"), Err(()));
}

#[test]
fn dag_state_round_trips() {
    for s in dag_states() {
        assert_eq!(DagState::from_str(s.as_str()), Ok(s));
        assert_eq!(DagState::from_str(&s.to_string()), Ok(s));
    }
    assert_eq!(DagState::Running.to_string(), "running");
}

#[test]
fn task_state_decodes_each_token() {
    let tokens = [
        "deferred",
        "failed",
        "queued",
        "removed",
        "restarting",
        "running",
        "scheduled",
        "skipped",
        "success",
        "up_for_reschedule",
        "up_for_retry",
        "upstream_failed",
    ];
    for (token, state) in tokens.iter().zip(task_states()) {
        assert_eq!(TaskState::from_str(token), Ok(state));
        assert_eq!(state.as_str(), *token);
    }
}

#[test]
fn task_state_rejects_unknown_tokens() {
    assert_eq!(TaskState::from_str("none"), Err(()));
    assert_eq!(TaskState::from_str("SUCCESS"), Err(()));
    assert_eq!(TaskState::from_str("up_for_retry "), Err(()));
}

#[test]
fn task_state_round_trips() {
    for s in task_states() {
        assert_eq!(TaskState::from_str(s.as_str()), Ok(s));
        assert_eq!(TaskState::from_str(&s.to_string()), Ok(s));
    }
}

#[test]
fn badges_follow_states() {
    assert_eq!(dag_state_badge_type(&DagState::Failed), "badge-error");
    assert_eq!(dag_state_badge_type(&DagState::Queued), "badge-neutral");
    assert_eq!(dag_state_badge_type(&DagState::Running), "badge-primary");
    assert_eq!(dag_state_badge_type(&DagState::Success), "badge-success");
    assert_eq!(task_state_badge_type(&TaskState::Deferred), "badge-info");
    assert_eq!(task_state_badge_type(&TaskState::Restarting), "badge-secondary");
    assert_eq!(task_state_badge_type(&TaskState::Skipped), "badge-neutral");
    assert_eq!(task_state_badge_type(&TaskState::UpstreamFailed), "badge-warning");
    assert_eq!(task_state_badge_type(&TaskState::Success), "badge-success");
}
