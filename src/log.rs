//! Task attempt logs: where each one lies, when one may be asked for, and
//! how its text is prepared for line-numbered display.

use vstd::prelude::*;
use crate::record::Task;
use crate::resolve::LookupError;
use crate::text::{decimal, has_char, lemma_split_on_nonempty, push_decimal, split_on};

verus! {

/// An identifier that can stand in one segment of a log path: it holds no
/// path separator and no NUL, so the path stays inside the log layout.
pub open spec fn is_path_segment(s: Seq<char>) -> bool {
    !s.contains('/') && !s.contains('\0')
}

/// The file that holds attempt `attempt` of task `task` in run `run` of DAG
/// `dag`, under the log directory `base`.
pub open spec fn log_path_of(
    base: Seq<char>,
    dag: Seq<char>,
    run: Seq<char>,
    task: Seq<char>,
    attempt: nat,
) -> Seq<char> {
    base + "/dag_id="@ + dag + "/run_id="@ + run + "/task_id="@ + task + "/attempt="@ + decimal(
        attempt,
    ) + ".log"@
}

/// The path of an attempt's log, or nothing when an identifier could leave
/// the log layout; such a log is reported as not found.
pub fn log_path(base: &str, dag_id: &str, run_id: &str, task_id: &str, attempt: u32) -> (r:
    Option<String>)
    ensures
        r.deep_view() == if is_path_segment(dag_id@) && is_path_segment(run_id@)
            && is_path_segment(task_id@) {
            Some(log_path_of(base@, dag_id@, run_id@, task_id@, attempt as nat))
        } else {
            None::<Seq<char>>
        },
{
    if has_char(dag_id, '/') || has_char(dag_id, '\0') || has_char(run_id, '/') || has_char(
        run_id,
        '\0',
    ) || has_char(task_id, '/') || has_char(task_id, '\0') {
        return None;
    }
    let mut path = String::new();
    path.append(base);
    path.append("/dag_id=");
    path.append(dag_id);
    path.append("/run_id=");
    path.append(run_id);
    path.append("/task_id=");
    path.append(task_id);
    path.append("/attempt=");
    push_decimal(&mut path, attempt);
    path.append(".log");
    Some(path)
}

/// The text with every carriage return turned into a line feed, and the line
/// feed that directly follows a carriage return dropped: `\r\n`, `\r` and
/// `\n` all end one line.
pub open spec fn normalized(s: Seq<char>) -> Seq<char>
    decreases s.len(),
{
    if s.len() == 0 {
        Seq::empty()
    } else if s.last() == '\n' && s.len() >= 2 && s[s.len() - 2] == '\r' {
        normalized(s.drop_last())
    } else if s.last() == '\r' {
        normalized(s.drop_last()).push('\n')
    } else {
        normalized(s.drop_last()).push(s.last())
    }
}

/// Brings every line ending of a log to a single line feed.
pub fn normalize_line_endings(log: &str) -> (r: String)
    ensures
        r@ == normalized(log@),
{
    let ghost all = log@;
    let mut out = String::new();
    let mut after_cr = false;
    for c in it: log.chars()
        invariant
            it.seq() == all,
            out@ == normalized(all.take(it.index() as int)),
            after_cr == (it.index() > 0 && all[it.index() - 1] == '\r'),
    {
        let ghost i = it.index() as int;
        proof {
            assert(all.take(i + 1).drop_last() =~= all.take(i));
            assert(all.take(i + 1).last() == all[i]);
            if i > 0 {
                assert(all.take(i + 1)[i - 1] == all[i - 1]);
            }
        }
        if c == '\r' {
            out.push('\n');
            after_cr = true;
        } else if c == '\n' && after_cr {
            after_cr = false;
        } else {
            out.push(c);
            after_cr = false;
        }
    }
    proof {
        assert(all.take(all.len() as int) =~= all);
    }
    out
}

/// How reading a log file failed.
#[derive(Clone, Copy, Debug, PartialEq, Eq, Structural, Hash)]
pub enum ReadError {
    /// No file lies at the path.
    NotFound,
    /// Any other failure of the file system.
    Failure,
}

/// Resolves the outcome of reading a log: its text with line endings
/// normalized, `NotFound` when no file lies at the path (also when the
/// attempt asked for has none), or an internal failure.
pub fn resolve_log(read: Result<String, ReadError>) -> (r: Result<String, LookupError>)
    ensures
        match read {
            Ok(text) => r matches Ok(t) && t@ == normalized(text@),
            Err(ReadError::NotFound) => r == Err::<String, LookupError>(LookupError::NotFound),
            Err(ReadError::Failure) => r == Err::<String, LookupError>(
                LookupError::InternalFailure,
            ),
        },
{
    match read {
        Ok(text) => Ok(normalize_line_endings(text.as_str())),
        Err(ReadError::NotFound) => Err(LookupError::NotFound),
        Err(ReadError::Failure) => Err(LookupError::InternalFailure),
    }
}

impl Task {
    /// The task has been attempted at least once, so it has logs.
    pub open spec fn attempted(self) -> bool {
        self.try_number matches Some(n) && n > 0
    }

    /// Whether a view of the task may link to its logs.
    pub fn offers_log_link(&self) -> (r: bool)
        ensures
            r == self.attempted(),
    {
        match self.try_number {
            Some(n) => n > 0,
            None => false,
        }
    }

    /// The number of attempts whose logs may be asked for; a task never
    /// attempted has no logs yet, which is `NotFound`.
    pub fn log_attempts(&self) -> (r: Result<u32, LookupError>)
        ensures
            self.attempted() ==> r == Ok::<u32, LookupError>(self.try_number->0),
            !self.attempted() ==> r == Err::<u32, LookupError>(LookupError::NotFound),
    {
        match self.try_number {
            Some(n) => if n > 0 {
                Ok(n)
            } else {
                Err(LookupError::NotFound)
            },
            None => Err(LookupError::NotFound),
        }
    }
}

/// One tab of the log view: an attempt, and whether it is the one shown.
#[derive(Clone, Copy, Debug, PartialEq, Eq, Structural, Hash)]
pub struct AttemptTab {
    pub attempt: u32,
    pub current: bool,
}

/// The log of one attempt, ready to show, with what its tabs need.
pub struct LogComponent {
    pub dag_id: String,
    pub run_id: String,
    pub task_id: String,
    pub attempt: u32,
    pub try_number: u32,
    pub log: String,
}

/// Builds the log view of attempt `attempt` out of `try_number` attempts from
/// the outcome of reading its file.
pub fn log_component(
    dag_id: &str,
    run_id: &str,
    task_id: &str,
    attempt: u32,
    try_number: u32,
    read: Result<String, ReadError>,
) -> (r: Result<LogComponent, LookupError>)
    ensures
        match read {
            Ok(text) => r matches Ok(c) && c.dag_id@ == dag_id@ && c.run_id@ == run_id@
                && c.task_id@ == task_id@ && c.attempt == attempt && c.try_number == try_number
                && c.log@ == normalized(text@),
            Err(ReadError::NotFound) => r == Err::<LogComponent, LookupError>(
                LookupError::NotFound,
            ),
            Err(ReadError::Failure) => r == Err::<LogComponent, LookupError>(
                LookupError::InternalFailure,
            ),
        },
{
    let log = match resolve_log(read) {
        Ok(log) => log,
        Err(e) => {
            return Err(e);
        },
    };
    Ok(
        LogComponent {
            dag_id: dag_id.to_owned(),
            run_id: run_id.to_owned(),
            task_id: task_id.to_owned(),
            attempt,
            try_number,
            log,
        },
    )
}

/// The lines of a text whose lines end in line feeds: the pieces between
/// line feeds, without the empty piece after a final line feed.
pub open spec fn lines_of(s: Seq<char>) -> Seq<Seq<char>> {
    let pieces = split_on(s, '\n');
    if pieces.last().len() == 0 {
        pieces.drop_last()
    } else {
        pieces
    }
}

impl LogComponent {
    /// One tab per attempt, from the first to the last, the shown attempt
    /// marked as current.
    pub fn tabs(&self) -> (r: Vec<AttemptTab>)
        ensures
            r.len() == self.try_number,
            forall|i: int|
                0 <= i < r.len() ==> #[trigger] r[i] == (AttemptTab {
                    attempt: (i + 1) as u32,
                    current: i + 1 == self.attempt,
                }),
    {
        let mut tabs: Vec<AttemptTab> = Vec::new();
        let mut n: u32 = 0;
        while n < self.try_number
            invariant
                n <= self.try_number,
                tabs.len() == n,
                forall|i: int|
                    0 <= i < tabs.len() ==> #[trigger] tabs[i] == (AttemptTab {
                        attempt: (i + 1) as u32,
                        current: i + 1 == self.attempt,
                    }),
            decreases self.try_number - n,
        {
            n = n + 1;
            tabs.push(AttemptTab { attempt: n, current: n == self.attempt });
        }
        tabs
    }

    /// The lines of the log, for display with their numbers.
    pub fn lines(&self) -> (r: Vec<String>)
        ensures
            r.deep_view() == lines_of(self.log@),
    {
        let ghost all = self.log@;
        let mut lines: Vec<String> = Vec::new();
        let mut line = String::new();
        for c in it: self.log.as_str().chars()
            invariant
                it.seq() == all,
                split_on(all.take(it.index() as int), '\n').len() >= 1,
                line@ == split_on(all.take(it.index() as int), '\n').last(),
                lines.deep_view() == split_on(all.take(it.index() as int), '\n').drop_last(),
        {
            let ghost i = it.index() as int;
            let ghost before = split_on(all.take(i), '\n');
            proof {
                assert(all.take(i + 1).drop_last() =~= all.take(i));
                assert(all.take(i + 1).last() == all[i]);
                lemma_split_on_nonempty(all.take(i + 1), '\n');
            }
            if c == '\n' {
                let done = line;
                lines.push(done);
                line = String::new();
                proof {
                    assert(before.push(Seq::empty()).drop_last() =~= before);
                    assert(before =~= before.drop_last().push(before.last()));
                }
            } else {
                line.push(c);
                proof {
                    let after = before.update(before.len() - 1, before.last().push(c));
                    assert(after.drop_last() =~= before.drop_last());
                }
            }
        }
        proof {
            assert(all.take(all.len() as int) =~= all);
        }
        if line.as_str().unicode_len() > 0 {
            lines.push(line);
            proof {
                let pieces = split_on(all, '\n');
                assert(pieces =~= pieces.drop_last().push(pieces.last()));
            }
        }
        lines
    }
}

} // verus!
