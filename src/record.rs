//! Domain records built from the store's nullable rows.
//!
//! A row whose required fields are not all present stands for an orchestrator
//! record that is not fully attributed yet: it yields no record and is left out
//! of results, which is no error.

use vstd::prelude::*;
use crate::state::{dag_state_of, task_state_of, DagState, TaskState};
use crate::time::Timestamp;

verus! {

/// One system as grouped from trigger metadata, every column nullable.
pub struct SystemRow {
    pub client_name: Option<String>,
    pub client_id: Option<String>,
    pub system_name: Option<String>,
    pub system_id: Option<String>,
    pub team_name: Option<String>,
    pub team_id: Option<String>,
    pub latest_run: Option<Timestamp>,
    pub number_of_dag_runs: Option<i64>,
}

pub struct SystemRowView {
    pub client_name: Option<Seq<char>>,
    pub client_id: Option<Seq<char>>,
    pub system_name: Option<Seq<char>>,
    pub system_id: Option<Seq<char>>,
    pub team_name: Option<Seq<char>>,
    pub team_id: Option<Seq<char>>,
    pub latest_run: Option<Timestamp>,
    pub number_of_dag_runs: Option<int>,
}

impl View for SystemRow {
    type V = SystemRowView;

    open spec fn view(&self) -> SystemRowView {
        SystemRowView {
            client_name: self.client_name.deep_view(),
            client_id: self.client_id.deep_view(),
            system_name: self.system_name.deep_view(),
            system_id: self.system_id.deep_view(),
            team_name: self.team_name.deep_view(),
            team_id: self.team_id.deep_view(),
            latest_run: self.latest_run,
            number_of_dag_runs: match self.number_of_dag_runs {
                Some(n) => Some(n as int),
                None => None,
            },
        }
    }
}

/// A logical system: a client, team and system triple inferred from trigger
/// metadata, with the latest execution date and the number of its DAG runs.
pub struct System {
    pub client_name: String,
    pub client_id: String,
    pub system_name: String,
    pub system_id: String,
    pub team_name: String,
    pub team_id: String,
    pub latest_run: Timestamp,
    pub number_of_dag_runs: u64,
}

pub struct SystemView {
    pub client_name: Seq<char>,
    pub client_id: Seq<char>,
    pub system_name: Seq<char>,
    pub system_id: Seq<char>,
    pub team_name: Seq<char>,
    pub team_id: Seq<char>,
    pub latest_run: Timestamp,
    pub number_of_dag_runs: nat,
}

impl View for System {
    type V = SystemView;

    open spec fn view(&self) -> SystemView {
        SystemView {
            client_name: self.client_name@,
            client_id: self.client_id@,
            system_name: self.system_name@,
            system_id: self.system_id@,
            team_name: self.team_name@,
            team_id: self.team_id@,
            latest_run: self.latest_run,
            number_of_dag_runs: self.number_of_dag_runs as nat,
        }
    }
}

impl DeepView for System {
    type V = SystemView;

    open spec fn deep_view(&self) -> SystemView {
        self@
    }
}

/// The system a row describes: present exactly when every column is present
/// and the run count is not negative, with each field taken over unchanged.
pub open spec fn system_of_row(r: SystemRowView) -> Option<SystemView> {
    if r.client_name is Some && r.client_id is Some && r.system_name is Some
        && r.system_id is Some && r.team_name is Some && r.team_id is Some
        && r.latest_run is Some && r.number_of_dag_runs is Some
        && r.number_of_dag_runs->0 >= 0 {
        Some(
            SystemView {
                client_name: r.client_name->0,
                client_id: r.client_id->0,
                system_name: r.system_name->0,
                system_id: r.system_id->0,
                team_name: r.team_name->0,
                team_id: r.team_id->0,
                latest_run: r.latest_run->0,
                number_of_dag_runs: r.number_of_dag_runs->0 as nat,
            },
        )
    } else {
        None
    }
}

impl SystemRow {
    /// Converts the row into a system, or into nothing when it is partial.
    pub fn into_system(self) -> (r: Option<System>)
        ensures
            r.deep_view() == system_of_row(self@),
    {
        match self {
            SystemRow {
                client_name: Some(client_name),
                client_id: Some(client_id),
                system_name: Some(system_name),
                system_id: Some(system_id),
                team_name: Some(team_name),
                team_id: Some(team_id),
                latest_run: Some(latest_run),
                number_of_dag_runs: Some(count),
            } => {
                if count < 0 {
                    None
                } else {
                    Some(
                        System {
                            client_name,
                            client_id,
                            system_name,
                            system_id,
                            team_name,
                            team_id,
                            latest_run,
                            number_of_dag_runs: count as u64,
                        },
                    )
                }
            },
            _ => None,
        }
    }
}

} // verus!

verus! {

/// The DAG run state that a stored token names; an unknown token or none
/// leaves the state absent.
pub open spec fn dag_state_of_token(t: Option<Seq<char>>) -> Option<DagState> {
    match t {
        Some(t) => match dag_state_of(t) {
            Ok(s) => Some(s),
            Err(_) => None,
        },
        None => None,
    }
}

/// The task state that a stored token names; an unknown token or none leaves
/// the state absent.
pub open spec fn task_state_of_token(t: Option<Seq<char>>) -> Option<TaskState> {
    match t {
        Some(t) => match task_state_of(t) {
            Ok(s) => Some(s),
            Err(_) => None,
        },
        None => None,
    }
}

/// One DAG run joined with the system id of its trigger, every column nullable.
pub struct DagRunRow {
    pub dag_id: Option<String>,
    pub execution_date: Option<Timestamp>,
    pub run_id: Option<String>,
    pub system_id: Option<String>,
    pub state: Option<String>,
    pub start_date: Option<Timestamp>,
    pub end_date: Option<Timestamp>,
}

pub struct DagRunRowView {
    pub dag_id: Option<Seq<char>>,
    pub execution_date: Option<Timestamp>,
    pub run_id: Option<Seq<char>>,
    pub system_id: Option<Seq<char>>,
    pub state: Option<Seq<char>>,
    pub start_date: Option<Timestamp>,
    pub end_date: Option<Timestamp>,
}

impl View for DagRunRow {
    type V = DagRunRowView;

    open spec fn view(&self) -> DagRunRowView {
        DagRunRowView {
            dag_id: self.dag_id.deep_view(),
            execution_date: self.execution_date,
            run_id: self.run_id.deep_view(),
            system_id: self.system_id.deep_view(),
            state: self.state.deep_view(),
            start_date: self.start_date,
            end_date: self.end_date,
        }
    }
}

/// One execution of a scheduled workflow. `system_id` is absent when no
/// trigger record names the run's system.
pub struct DagRun {
    pub dag_id: String,
    pub execution_date: Timestamp,
    pub run_id: String,
    pub system_id: Option<String>,
    pub state: Option<DagState>,
    pub start_date: Option<Timestamp>,
    pub end_date: Option<Timestamp>,
}

pub struct DagRunView {
    pub dag_id: Seq<char>,
    pub execution_date: Timestamp,
    pub run_id: Seq<char>,
    pub system_id: Option<Seq<char>>,
    pub state: Option<DagState>,
    pub start_date: Option<Timestamp>,
    pub end_date: Option<Timestamp>,
}

impl View for DagRun {
    type V = DagRunView;

    open spec fn view(&self) -> DagRunView {
        DagRunView {
            dag_id: self.dag_id@,
            execution_date: self.execution_date,
            run_id: self.run_id@,
            system_id: self.system_id.deep_view(),
            state: self.state,
            start_date: self.start_date,
            end_date: self.end_date,
        }
    }
}

impl DeepView for DagRun {
    type V = DagRunView;

    open spec fn deep_view(&self) -> DagRunView {
        self@
    }
}

/// The DAG run a row describes: present exactly when the DAG id, execution
/// date and run id are; the state is decoded, the other fields taken over.
pub open spec fn dag_run_of_row(r: DagRunRowView) -> Option<DagRunView> {
    if r.dag_id is Some && r.execution_date is Some && r.run_id is Some {
        Some(
            DagRunView {
                dag_id: r.dag_id->0,
                execution_date: r.execution_date->0,
                run_id: r.run_id->0,
                system_id: r.system_id,
                state: dag_state_of_token(r.state),
                start_date: r.start_date,
                end_date: r.end_date,
            },
        )
    } else {
        None
    }
}

impl DagRunRow {
    /// Converts the row into a DAG run, or into nothing when a required
    /// column is null.
    pub fn into_dag_run(self) -> (r: Option<DagRun>)
        ensures
            r.deep_view() == dag_run_of_row(self@),
    {
        let state: Option<DagState> = match &self.state {
            Some(text) => match DagState::from_str(text.as_str()) {
                Ok(s) => Some(s),
                Err(_) => None,
            },
            None => None,
        };
        match self {
            DagRunRow {
                dag_id: Some(dag_id),
                execution_date: Some(execution_date),
                run_id: Some(run_id),
                system_id,
                state: _,
                start_date,
                end_date,
            } => Some(
                DagRun { dag_id, execution_date, run_id, system_id, state, start_date, end_date },
            ),
            _ => None,
        }
    }
}

/// One task attempt record, every column nullable.
pub struct TaskRow {
    pub run_id: Option<String>,
    pub task_id: Option<String>,
    pub state: Option<String>,
    pub start_date: Option<Timestamp>,
    pub end_date: Option<Timestamp>,
    pub try_number: Option<i32>,
}

pub struct TaskRowView {
    pub run_id: Option<Seq<char>>,
    pub task_id: Option<Seq<char>>,
    pub state: Option<Seq<char>>,
    pub start_date: Option<Timestamp>,
    pub end_date: Option<Timestamp>,
    pub try_number: Option<int>,
}

impl View for TaskRow {
    type V = TaskRowView;

    open spec fn view(&self) -> TaskRowView {
        TaskRowView {
            run_id: self.run_id.deep_view(),
            task_id: self.task_id.deep_view(),
            state: self.state.deep_view(),
            start_date: self.start_date,
            end_date: self.end_date,
            try_number: match self.try_number {
                Some(n) => Some(n as int),
                None => None,
            },
        }
    }
}

/// One step of a DAG run. `try_number` counts its attempts; absent or zero,
/// the task was never attempted and has no log.
pub struct Task {
    pub run_id: String,
    pub task_id: String,
    pub state: Option<TaskState>,
    pub start_date: Option<Timestamp>,
    pub end_date: Option<Timestamp>,
    pub try_number: Option<u32>,
}

pub struct TaskView {
    pub run_id: Seq<char>,
    pub task_id: Seq<char>,
    pub state: Option<TaskState>,
    pub start_date: Option<Timestamp>,
    pub end_date: Option<Timestamp>,
    pub try_number: Option<nat>,
}

impl View for Task {
    type V = TaskView;

    open spec fn view(&self) -> TaskView {
        TaskView {
            run_id: self.run_id@,
            task_id: self.task_id@,
            state: self.state,
            start_date: self.start_date,
            end_date: self.end_date,
            try_number: match self.try_number {
                Some(n) => Some(n as nat),
                None => None,
            },
        }
    }
}

impl DeepView for Task {
    type V = TaskView;

    open spec fn deep_view(&self) -> TaskView {
        self@
    }
}

/// The task a row describes: present exactly when the run id and task id are;
/// the state is decoded, a negative attempt counter is left absent, and the
/// other fields are taken over.
pub open spec fn task_of_row(r: TaskRowView) -> Option<TaskView> {
    if r.run_id is Some && r.task_id is Some {
        Some(
            TaskView {
                run_id: r.run_id->0,
                task_id: r.task_id->0,
                state: task_state_of_token(r.state),
                start_date: r.start_date,
                end_date: r.end_date,
                try_number: match r.try_number {
                    Some(n) => if n >= 0 {
                        Some(n as nat)
                    } else {
                        None
                    },
                    None => None,
                },
            },
        )
    } else {
        None
    }
}

impl TaskRow {
    /// Converts the row into a task, or into nothing when a required column
    /// is null.
    pub fn into_task(self) -> (r: Option<Task>)
        ensures
            r.deep_view() == task_of_row(self@),
    {
        let state: Option<TaskState> = match &self.state {
            Some(text) => match TaskState::from_str(text.as_str()) {
                Ok(s) => Some(s),
                Err(_) => None,
            },
            None => None,
        };
        let try_number: Option<u32> = match self.try_number {
            Some(n) => if n >= 0 {
                Some(n as u32)
            } else {
                None
            },
            None => None,
        };
        match self {
            TaskRow {
                run_id: Some(run_id),
                task_id: Some(task_id),
                state: _,
                start_date,
                end_date,
                try_number: _,
            } => Some(Task { run_id, task_id, state, start_date, end_date, try_number }),
            _ => None,
        }
    }
}

} // verus!

verus! {

/// The systems that a sequence of rows describes, in row order, partial rows
/// left out.
pub open spec fn systems_of_rows(rows: Seq<SystemRowView>) -> Seq<SystemView>
    decreases rows.len(),
{
    if rows.len() == 0 {
        Seq::empty()
    } else {
        let rest = systems_of_rows(rows.drop_last());
        match system_of_row(rows.last()) {
            Some(s) => rest.push(s),
            None => rest,
        }
    }
}

pub open spec fn system_rows_view(rows: Seq<SystemRow>) -> Seq<SystemRowView> {
    rows.map_values(|r: SystemRow| r@)
}

/// Converts the rows of a result set into systems, in order, leaving out the
/// partial ones.
pub fn complete_systems(rows: Vec<SystemRow>) -> (r: Vec<System>)
    ensures
        r.deep_view() == systems_of_rows(system_rows_view(rows@)),
{
    let ghost all = rows@;
    let mut out: Vec<System> = Vec::new();
    for row in it: rows.into_iter()
        invariant
            it.seq() == all,
            out.deep_view() == systems_of_rows(system_rows_view(all.take(it.index() as int))),
    {
        proof {
            let i = it.index() as int;
            assert(system_rows_view(all.take(i + 1)).drop_last() =~= system_rows_view(all.take(i)));
        }
        match row.into_system() {
            Some(s) => out.push(s),
            None => {},
        }
        assert(out.deep_view() =~= systems_of_rows(system_rows_view(all.take(it.index() + 1))));
    }
    proof {
        assert(all.take(all.len() as int) =~= all);
    }
    out
}

} // verus!

verus! {

/// The DAG runs that a sequence of rows describes, in row order, rows lacking a
/// required column left out.
pub open spec fn dag_runs_of_rows(rows: Seq<DagRunRowView>) -> Seq<DagRunView>
    decreases rows.len(),
{
    if rows.len() == 0 {
        Seq::empty()
    } else {
        let rest = dag_runs_of_rows(rows.drop_last());
        match dag_run_of_row(rows.last()) {
            Some(s) => rest.push(s),
            None => rest,
        }
    }
}

pub open spec fn dag_run_rows_view(rows: Seq<DagRunRow>) -> Seq<DagRunRowView> {
    rows.map_values(|r: DagRunRow| r@)
}

/// Converts the rows of a result set into DAG runs, in order, leaving out the
/// rows that lack a required column.
pub fn complete_dag_runs(rows: Vec<DagRunRow>) -> (r: Vec<DagRun>)
    ensures
        r.deep_view() == dag_runs_of_rows(dag_run_rows_view(rows@)),
{
    let ghost all = rows@;
    let mut out: Vec<DagRun> = Vec::new();
    for row in it: rows.into_iter()
        invariant
            it.seq() == all,
            out.deep_view() == dag_runs_of_rows(dag_run_rows_view(all.take(it.index() as int))),
    {
        proof {
            let i = it.index() as int;
            assert(dag_run_rows_view(all.take(i + 1)).drop_last() =~= dag_run_rows_view(all.take(i)));
        }
        match row.into_dag_run() {
            Some(s) => out.push(s),
            None => {},
        }
        assert(out.deep_view() =~= dag_runs_of_rows(dag_run_rows_view(all.take(it.index() + 1))));
    }
    proof {
        assert(all.take(all.len() as int) =~= all);
    }
    out
}

} // verus!

verus! {

/// The tasks that a sequence of rows describes, in row order, rows lacking a
/// required column left out.
pub open spec fn tasks_of_rows(rows: Seq<TaskRowView>) -> Seq<TaskView>
    decreases rows.len(),
{
    if rows.len() == 0 {
        Seq::empty()
    } else {
        let rest = tasks_of_rows(rows.drop_last());
        match task_of_row(rows.last()) {
            Some(s) => rest.push(s),
            None => rest,
        }
    }
}

pub open spec fn task_rows_view(rows: Seq<TaskRow>) -> Seq<TaskRowView> {
    rows.map_values(|r: TaskRow| r@)
}

/// Converts the rows of a result set into tasks, in order, leaving out the
/// rows that lack a required column.
pub fn complete_tasks(rows: Vec<TaskRow>) -> (r: Vec<Task>)
    ensures
        r.deep_view() == tasks_of_rows(task_rows_view(rows@)),
{
    let ghost all = rows@;
    let mut out: Vec<Task> = Vec::new();
    for row in it: rows.into_iter()
        invariant
            it.seq() == all,
            out.deep_view() == tasks_of_rows(task_rows_view(all.take(it.index() as int))),
    {
        proof {
            let i = it.index() as int;
            assert(task_rows_view(all.take(i + 1)).drop_last() =~= task_rows_view(all.take(i)));
        }
        match row.into_task() {
            Some(s) => out.push(s),
            None => {},
        }
        assert(out.deep_view() =~= tasks_of_rows(task_rows_view(all.take(it.index() + 1))));
    }
    proof {
        assert(all.take(all.len() as int) =~= all);
    }
    out
}

} // verus!
