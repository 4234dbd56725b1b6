use kyubey::record::{
    complete_dag_runs, complete_systems, complete_tasks, DagRunRow, SystemRow, TaskRow,
};
use kyubey::state::{DagState, TaskState};
use kyubey::time::Timestamp;

/// 2024-01-01T00:00:00Z.
const JAN_1: i64 = 1_704_067_200_000_000;
const DAY: i64 = 86_400_000_000;

fn full_row(system_id: &str, latest: i64, count: i64) -> SystemRow {
    SystemRow {
        client_name: Some("Acme".to_string()),
        client_id: Some("c-1".to_string()),
        system_name: Some("Billing".to_string()),
        system_id: Some(system_id.to_string()),
        team_name: Some("Payments".to_string()),
        team_id: Some("t-9".to_string()),
        latest_run: Some(Timestamp::from_micros(latest)),
        number_of_dag_runs: Some(count),
    }
}

fn run_row(run_id: &str, state: Option<&str>) -> DagRunRow {
    DagRunRow {
        dag_id: Some("etl".to_string()),
        execution_date: Some(Timestamp::from_micros(JAN_1)),
        run_id: Some(run_id.to_string()),
        system_id: Some("sys-1".to_string()),
        state: state.map(|s| s.to_string()),
        start_date: None,
        end_date: Some(Timestamp::from_micros(JAN_1 + DAY)),
    }
}

fn task_row(task_id: &str, try_number: Option<i32>) -> TaskRow {
    TaskRow {
        run_id: Some("r1".to_string()),
        task_id: Some(task_id.to_string()),
        state: Some("success".to_string()),
        start_date: Some(Timestamp::from_micros(JAN_1)),
        end_date: None,
        try_number,
    }
}

#[test]
fn complete_system_row_keeps_every_field() {
    let s = full_row("sys-1", JAN_1, 7).into_system().expect("complete row");
    assert_eq!(s.client_name, "Acme");
    assert_eq!(s.client_id, "c-1");
    assert_eq!(s.system_name, "Billing");
    assert_eq!(s.system_id, "sys-1");
    assert_eq!(s.team_name, "Payments");
    assert_eq!(s.team_id, "t-9");
    assert_eq!(s.latest_run, Timestamp::from_micros(JAN_1));
    assert_eq!(s.number_of_dag_runs, 7);
}

#[test]
fn system_row_missing_any_field_is_dropped() {
    for field in 0..8 {
        let mut r = full_row("sys-1", JAN_1, 1);
        match field {
            0 => r.client_name = None,
            1 => r.client_id = None,
            2 => r.system_name = None,
            3 => r.system_id = None,
            4 => r.team_name = None,
            5 => r.team_id = None,
            6 => r.latest_run = None,
            _ => r.number_of_dag_runs = None,
        }
        assert!(r.into_system().is_none(), "field {field}");
    }
}

#[test]
fn system_row_with_negative_count_is_dropped() {
    assert!(full_row("sys-1", JAN_1, -1).into_system().is_none());
    assert!(full_row("sys-1", JAN_1, i64::MIN).into_system().is_none());
    let s = full_row("sys-1", JAN_1, i64::MAX).into_system().unwrap();
    assert_eq!(s.number_of_dag_runs, i64::MAX as u64);
    assert_eq!(full_row("sys-1", JAN_1, 0).into_system().unwrap().number_of_dag_runs, 0);
}

#[test]
fn aggregated_system_of_three_runs() {
    // Trigger rows of sys-1 ran on 2024-01-01, 2024-01-02 and 2024-01-03; the
    // store reports their group with the count and the latest date.
    let latest = [JAN_1, JAN_1 + DAY, JAN_1 + 2 * DAY].into_iter().max().unwrap();
    let s = full_row("sys-1", latest, 3).into_system().unwrap();
    assert_eq!(s.number_of_dag_runs, 3);
    assert_eq!(s.latest_run, Timestamp::from_micros(1_704_240_000_000_000));
}

#[test]
fn dag_run_row_decodes_state() {
    let d = run_row("r1", Some("running")).into_dag_run().unwrap();
    assert_eq!(d.dag_id, "etl");
    assert_eq!(d.run_id, "r1");
    assert_eq!(d.system_id.as_deref(), Some("sys-1"));
    assert_eq!(d.state, Some(DagState::Running));
    assert_eq!(d.execution_date, Timestamp::from_micros(JAN_1));
    assert_eq!(d.start_date, None);
    assert_eq!(d.end_date, Some(Timestamp::from_micros(JAN_1 + DAY)));
}

#[test]
fn dag_run_row_with_unknown_state_keeps_the_run() {
    let d = run_row("r1", Some("exploded")).into_dag_run().unwrap();
    assert_eq!(d.state, None);
    let d = run_row("r1", None).into_dag_run().unwrap();
    assert_eq!(d.state, None);
}

#[test]
fn dag_run_row_without_parent_system_keeps_the_run() {
    let mut r = run_row("r1", Some("success"));
    r.system_id = None;
    let d = r.into_dag_run().unwrap();
    assert_eq!(d.system_id, None);
    assert_eq!(d.state, Some(DagState::Success));
}

#[test]
fn dag_run_row_missing_required_field_is_dropped() {
    let mut a = run_row("r1", None);
    a.dag_id = None;
    let mut b = run_row("r1", None);
    b.execution_date = None;
    let mut c = run_row("r1", None);
    c.run_id = None;
    assert!(a.into_dag_run().is_none());
    assert!(b.into_dag_run().is_none());
    assert!(c.into_dag_run().is_none());
}

#[test]
fn task_row_maps_attempts() {
    let t = task_row("extract", Some(2)).into_task().unwrap();
    assert_eq!(t.run_id, "r1");
    assert_eq!(t.task_id, "extract");
    assert_eq!(t.state, Some(TaskState::Success));
    assert_eq!(t.try_number, Some(2));
    assert_eq!(task_row("extract", Some(-3)).into_task().unwrap().try_number, None);
    assert_eq!(task_row("extract", None).into_task().unwrap().try_number, None);
    assert_eq!(task_row("extract", Some(0)).into_task().unwrap().try_number, Some(0));
}

#[test]
fn task_row_missing_ids_is_dropped() {
    let mut a = task_row("extract", Some(1));
    a.run_id = None;
    let mut b = task_row("extract", Some(1));
    b.task_id = None;
    assert!(a.into_task().is_none());
    assert!(b.into_task().is_none());
}

#[test]
fn lists_keep_order_and_drop_partial_rows() {
    let mut partial = full_row("sys-2", JAN_1, 1);
    partial.team_id = None;
    let systems = complete_systems(vec![
        full_row("sys-3", JAN_1 + DAY, 2),
        partial,
        full_row("sys-1", JAN_1, 1),
    ]);
    let ids: Vec<&str> = systems.iter().map(|s| s.system_id.as_str()).collect();
    assert_eq!(ids, ["sys-3", "sys-1"]);

    let mut bad = run_row("r2", None);
    bad.run_id = None;
    let runs = complete_dag_runs(vec![run_row("r1", None), bad, run_row("r3", Some("failed"))]);
    let ids: Vec<&str> = runs.iter().map(|d| d.run_id.as_str()).collect();
    assert_eq!(ids, ["r1", "r3"]);

    let mut orphan = task_row("b", None);
    orphan.task_id = None;
    let tasks = complete_tasks(vec![task_row("a", Some(1)), orphan, task_row("c", None)]);
    let ids: Vec<&str> = tasks.iter().map(|t| t.task_id.as_str()).collect();
    assert_eq!(ids, ["a", "c"]);
    assert!(complete_tasks(Vec::new()).is_empty());
}
