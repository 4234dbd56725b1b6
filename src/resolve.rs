//! Lookups of systems, DAG runs and tasks, and the hierarchies they form.
//!
//! The store answers each lookup with rows or with an error; this module
//! decides what the answer amounts to. A lookup that finds no row, or only a
//! partial one, is `NotFound`; any other failure of the store is an
//! `InternalFailure`, whose detail stays with the caller's log.

use vstd::prelude::*;
use crate::record::{
    complete_dag_runs, complete_tasks, dag_run_of_row, dag_run_rows_view, dag_runs_of_rows,
    system_of_row, task_of_row, task_rows_view, tasks_of_rows, DagRun, DagRunRow, DagRunView,
    System, SystemRow, SystemView, Task, TaskRow, TaskView,
};

verus! {

/// How a query against the store failed.
#[derive(Clone, Copy, Debug, PartialEq, Eq, Structural, Hash)]
pub enum StoreError {
    /// A query for exactly one row found none.
    RowNotFound,
    /// Any other failure of the store.
    Failure,
}

/// Why a lookup has nothing to show.
#[derive(Clone, Copy, Debug, PartialEq, Eq, Structural, Hash)]
pub enum LookupError {
    /// No record matches the identifier.
    NotFound,
    /// The record exists but names no system to navigate to.
    NoParentSystem,
    /// The store or the file system failed; the detail is not shown.
    InternalFailure,
}

pub open spec fn lookup_error_of(e: StoreError) -> LookupError {
    match e {
        StoreError::RowNotFound => LookupError::NotFound,
        StoreError::Failure => LookupError::InternalFailure,
    }
}

pub open spec fn status_of(e: LookupError) -> u16 {
    match e {
        LookupError::NotFound => 404,
        LookupError::NoParentSystem => 409,
        LookupError::InternalFailure => 500,
    }
}

impl LookupError {
    /// What a failed store query amounts to for a lookup.
    pub fn from_store(e: StoreError) -> (r: LookupError)
        ensures
            r == lookup_error_of(e),
    {
        match e {
            StoreError::RowNotFound => LookupError::NotFound,
            StoreError::Failure => LookupError::InternalFailure,
        }
    }

    /// The HTTP status a caller receives: each condition has its own.
    pub fn status_code(&self) -> (r: u16)
        ensures
            r == status_of(*self),
    {
        match self {
            LookupError::NotFound => 404,
            LookupError::NoParentSystem => 409,
            LookupError::InternalFailure => 500,
        }
    }

    /// The text a caller is shown; it never carries internal detail.
    pub fn message(&self) -> (r: &'static str)
        ensures
            r@ == match *self {
                LookupError::NotFound => "Not Found"@,
                LookupError::NoParentSystem => "No Parent System Found"@,
                LookupError::InternalFailure => "Internal Server Error"@,
            },
    {
        match self {
            LookupError::NotFound => "Not Found",
            LookupError::NoParentSystem => "No Parent System Found",
            LookupError::InternalFailure => "Internal Server Error",
        }
    }
}

/// What a single-row system lookup amounts to.
pub open spec fn system_lookup(found: Result<SystemRow, StoreError>) -> Result<SystemView, LookupError> {
    match found {
        Ok(row) => match system_of_row(row@) {
            Some(s) => Ok(s),
            None => Err(LookupError::NotFound),
        },
        Err(e) => Err(lookup_error_of(e)),
    }
}

pub open spec fn system_result_view(r: Result<System, LookupError>) -> Result<SystemView, LookupError> {
    match r {
        Ok(s) => Ok(s@),
        Err(e) => Err(e),
    }
}

/// Resolves the answer to a lookup of one system, by its id or by one of its
/// runs.
pub fn resolve_system(found: Result<SystemRow, StoreError>) -> (r: Result<System, LookupError>)
    ensures
        system_result_view(r) == system_lookup(found),
{
    match found {
        Ok(row) => match row.into_system() {
            Some(s) => Ok(s),
            None => Err(LookupError::NotFound),
        },
        Err(e) => Err(LookupError::from_store(e)),
    }
}

/// What a single-row DAG run lookup amounts to.
pub open spec fn dag_run_lookup(found: Result<DagRunRow, StoreError>) -> Result<DagRunView, LookupError> {
    match found {
        Ok(row) => match dag_run_of_row(row@) {
            Some(d) => Ok(d),
            None => Err(LookupError::NotFound),
        },
        Err(e) => Err(lookup_error_of(e)),
    }
}

pub open spec fn dag_run_result_view(r: Result<DagRun, LookupError>) -> Result<DagRunView, LookupError> {
    match r {
        Ok(d) => Ok(d@),
        Err(e) => Err(e),
    }
}

/// Resolves the answer to a lookup of one DAG run by its run id.
pub fn resolve_dag_run(found: Result<DagRunRow, StoreError>) -> (r: Result<DagRun, LookupError>)
    ensures
        dag_run_result_view(r) == dag_run_lookup(found),
{
    match found {
        Ok(row) => match row.into_dag_run() {
            Some(d) => Ok(d),
            None => Err(LookupError::NotFound),
        },
        Err(e) => Err(LookupError::from_store(e)),
    }
}

/// What a single-row task lookup amounts to.
pub open spec fn task_lookup(found: Result<TaskRow, StoreError>) -> Result<TaskView, LookupError> {
    match found {
        Ok(row) => match task_of_row(row@) {
            Some(t) => Ok(t),
            None => Err(LookupError::NotFound),
        },
        Err(e) => Err(lookup_error_of(e)),
    }
}

pub open spec fn task_result_view(r: Result<Task, LookupError>) -> Result<TaskView, LookupError> {
    match r {
        Ok(t) => Ok(t@),
        Err(e) => Err(e),
    }
}

/// Resolves the answer to a lookup of one task by run id and task id.
pub fn resolve_task(found: Result<TaskRow, StoreError>) -> (r: Result<Task, LookupError>)
    ensures
        task_result_view(r) == task_lookup(found),
{
    match found {
        Ok(row) => match row.into_task() {
            Some(t) => Ok(t),
            None => Err(LookupError::NotFound),
        },
        Err(e) => Err(LookupError::from_store(e)),
    }
}

/// A system with its DAG runs, ordered by execution date, then DAG id.
pub struct SystemDagRuns {
    pub system: System,
    pub dag_runs: Vec<DagRun>,
}

impl SystemDagRuns {
    /// Pairs a resolved system with the answer to the query for its runs:
    /// the complete rows in the store's order, or an internal failure.
    pub fn assemble(system: System, runs: Result<Vec<DagRunRow>, StoreError>) -> (r: Result<
        SystemDagRuns,
        LookupError,
    >)
        ensures
            match runs {
                Ok(rows) => r matches Ok(v) && v.system == system && v.dag_runs.deep_view()
                    == dag_runs_of_rows(dag_run_rows_view(rows@)),
                Err(_) => r == Err::<SystemDagRuns, LookupError>(LookupError::InternalFailure),
            },
    {
        match runs {
            Ok(rows) => Ok(SystemDagRuns { system, dag_runs: complete_dag_runs(rows) }),
            Err(_) => Err(LookupError::InternalFailure),
        }
    }
}

/// A DAG run with its tasks, ordered by DAG id, priority weight, then task id.
pub struct DagRunTasks {
    pub dag_run: DagRun,
    pub tasks: Vec<Task>,
}

impl DagRunTasks {
    /// Pairs a resolved DAG run with the answer to the query for its tasks:
    /// the complete rows in the store's order, or an internal failure.
    pub fn assemble(dag_run: DagRun, tasks: Result<Vec<TaskRow>, StoreError>) -> (r: Result<
        DagRunTasks,
        LookupError,
    >)
        ensures
            match tasks {
                Ok(rows) => r matches Ok(v) && v.dag_run == dag_run && v.tasks.deep_view()
                    == tasks_of_rows(task_rows_view(rows@)),
                Err(_) => r == Err::<DagRunTasks, LookupError>(LookupError::InternalFailure),
            },
    {
        match tasks {
            Ok(rows) => Ok(DagRunTasks { dag_run, tasks: complete_tasks(rows) }),
            Err(_) => Err(LookupError::InternalFailure),
        }
    }

    /// The id of the system that owns the run, which a task page needs to
    /// navigate upwards.
    pub fn parent_system_id(&self) -> (r: Result<&String, LookupError>)
        ensures
            match self.dag_run.system_id {
                Some(id) => r == Ok::<&String, LookupError>(&id),
                None => r == Err::<&String, LookupError>(LookupError::NoParentSystem),
            },
    {
        match &self.dag_run.system_id {
            Some(id) => Ok(id),
            None => Err(LookupError::NoParentSystem),
        }
    }
}

} // verus!

verus! {

/// Listing the tasks of a run: a run id with no DAG run row is `NotFound`;
/// a run that exists but has no tasks comes back paired with an empty task
/// list, not as `NotFound`.
pub proof fn lemma_tasks_of_missing_or_idle_run(run: DagRunRow)
    requires
        dag_run_of_row(run@) is Some,
    ensures
        dag_run_lookup(Err(StoreError::RowNotFound)) == Err::<DagRunView, LookupError>(
            LookupError::NotFound,
        ),
        dag_run_lookup(Ok(run)) == Ok::<DagRunView, LookupError>(dag_run_of_row(run@)->0),
        tasks_of_rows(task_rows_view(Seq::<TaskRow>::empty())) == Seq::<TaskView>::empty(),
{
    assert(task_rows_view(Seq::<TaskRow>::empty()) =~= Seq::<crate::record::TaskRowView>::empty());
}

} // verus!
