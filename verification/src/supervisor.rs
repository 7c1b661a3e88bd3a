//! The supervisor: one watch task per unit, each ending on its own.

use crate::unit::{Unit, UnitView};
use crate::watcher::{SetupError, UnitWatcher};
use vstd::prelude::*;

verus! {

/// How far a watch task has come.
#[derive(Clone, Copy, Debug, PartialEq, Eq, Structural)]
pub enum TaskStatus {
    /// The task's watcher is still at work.
    Running,
    /// Both streams of the task's unit ended.
    Done,
    /// The task's watcher could not subscribe.
    Failed(SetupError),
}

/// One watch task as the supervisor knows it.
#[derive(Debug)]
pub struct WatchTask {
    unit: Unit,
    status: TaskStatus,
}

/// A watch task as plain values.
pub struct WatchTaskView {
    pub unit: UnitView,
    pub status: TaskStatus,
}

impl View for WatchTask {
    type V = WatchTaskView;

    closed spec fn view(&self) -> WatchTaskView {
        WatchTaskView { unit: self.unit@, status: self.status }
    }
}

/// What the supervisor has to say of a task that failed.
#[derive(Debug, PartialEq, Eq)]
pub struct FailureReport {
    /// The task's place in the list of units.
    pub task: usize,
    /// The name of the task's unit.
    pub unit: String,
    /// Why the task failed.
    pub error: SetupError,
}

/// A failure report as plain values.
pub struct FailureReportView {
    pub task: int,
    pub unit: Seq<char>,
    pub error: SetupError,
}

impl View for FailureReport {
    type V = FailureReportView;

    open spec fn view(&self) -> FailureReportView {
        FailureReportView { task: self.task as int, unit: self.unit@, error: self.error }
    }
}

/// The status that a task takes when its watcher ends with `outcome`.
pub open spec fn status_of(outcome: Result<(), SetupError>) -> TaskStatus {
    match outcome {
        Ok(_) => TaskStatus::Done,
        Err(error) => TaskStatus::Failed(error),
    }
}

/// Whether every task has ended.
pub open spec fn all_ended(tasks: Seq<WatchTaskView>) -> bool {
    forall|i: int| 0 <= i < tasks.len() ==> !((#[trigger] tasks[i]).status is Running)
}

/// How many tasks are still running.
pub open spec fn running_count(tasks: Seq<WatchTaskView>) -> nat
    decreases tasks.len(),
{
    if tasks.len() == 0 {
        0
    } else {
        running_count(tasks.drop_last()) + if tasks.last().status is Running {
            1nat
        } else {
            0nat
        }
    }
}

/// Whether the end of `task` is news: the task exists and is still running.
pub open spec fn end_is_taken(tasks: Seq<WatchTaskView>, task: int) -> bool {
    0 <= task < tasks.len() && tasks[task].status is Running
}

/// The tasks after `task` ended with `outcome`. The end of a task that does
/// not exist, or that has ended before, changes nothing.
pub open spec fn tasks_after_end(
    tasks: Seq<WatchTaskView>,
    task: int,
    outcome: Result<(), SetupError>,
) -> Seq<WatchTaskView> {
    if end_is_taken(tasks, task) {
        tasks.update(task, WatchTaskView { unit: tasks[task].unit, status: status_of(outcome) })
    } else {
        tasks
    }
}

/// What is reported when `task` ends with `outcome`: a failure that is news,
/// and nothing else.
pub open spec fn report_of_end(
    tasks: Seq<WatchTaskView>,
    task: int,
    outcome: Result<(), SetupError>,
) -> Option<FailureReportView> {
    match outcome {
        Err(error) if end_is_taken(tasks, task) => Some(
            FailureReportView { task, unit: tasks[task].unit.name, error },
        ),
        _ => None,
    }
}

/// The supervisor of a set of watch tasks.
#[derive(Debug)]
pub struct WatchSupervisor {
    tasks: Vec<WatchTask>,
}

impl View for WatchSupervisor {
    type V = Seq<WatchTaskView>;

    closed spec fn view(&self) -> Seq<WatchTaskView> {
        Seq::new(self.tasks.len() as nat, |i: int| self.tasks[i]@)
    }
}

impl WatchSupervisor {
    /// Starts supervision: makes one watcher per unit, in the order of the
    /// list, and one running task for each. The watchers are handed out to
    /// run on their own; a unit listed twice gets two.
    pub fn launch(units: Vec<Unit>) -> (started: (WatchSupervisor, Vec<UnitWatcher>))
        ensures
            started.0@.len() == units.len(),
            started.1.len() == units.len(),
            all_ended(started.0@) <==> units.len() == 0,
            forall|i: int|
                0 <= i < units.len() ==> (#[trigger] started.0@[i]) == (WatchTaskView {
                    unit: units[i]@,
                    status: TaskStatus::Running,
                }),
            forall|i: int|
                0 <= i < units.len() ==> (#[trigger] started.1[i])@.unit == units[i]@
                    && started.1[i]@.phase == UnitWatcher::spec_initial_phase(units[i]@),
    {
        let mut tasks: Vec<WatchTask> = Vec::new();
        let mut watchers: Vec<UnitWatcher> = Vec::new();
        let mut i: usize = 0;
        while i < units.len()
            invariant
                i <= units.len(),
                tasks.len() == i,
                watchers.len() == i,
                forall|k: int|
                    0 <= k < i ==> (#[trigger] tasks[k])@ == (WatchTaskView {
                        unit: units[k]@,
                        status: TaskStatus::Running,
                    }),
                forall|k: int|
                    0 <= k < i ==> (#[trigger] watchers[k])@.unit == units[k]@ && watchers[k]@.phase
                        == UnitWatcher::spec_initial_phase(units[k]@),
            decreases units.len() - i,
        {
            tasks.push(WatchTask { unit: units[i].clone(), status: TaskStatus::Running });
            watchers.push(UnitWatcher::new(units[i].clone()));
            i += 1;
        }
        let supervisor = WatchSupervisor { tasks };
        proof {
            if units.len() > 0 {
                assert(supervisor@[0].status is Running);
            }
        }
        (supervisor, watchers)
    }

    /// How many tasks were launched.
    pub fn task_count(&self) -> (count: usize)
        ensures
            count == self@.len(),
    {
        self.tasks.len()
    }

    /// The status of a task, if there is such a task.
    pub fn status(&self, task: usize) -> (status: Option<TaskStatus>)
        ensures
            status == if task < self@.len() {
                Some(self@[task as int].status)
            } else {
                None
            },
    {
        if task < self.tasks.len() {
            Some(self.tasks[task].status)
        } else {
            None
        }
    }

    /// How many tasks are still running.
    pub fn running(&self) -> (count: usize)
        ensures
            count == running_count(self@),
    {
        let mut count: usize = 0;
        let mut i: usize = 0;
        while i < self.tasks.len()
            invariant
                i <= self.tasks.len(),
                self@.len() == self.tasks.len(),
                count <= i,
                count == running_count(self@.take(i as int)),
            decreases self.tasks.len() - i,
        {
            assert(self@.take(i + 1).drop_last() =~= self@.take(i as int));
            if let TaskStatus::Running = self.tasks[i].status {
                count += 1;
            }
            i += 1;
        }
        assert(self@.take(self.tasks.len() as int) =~= self@);
        count
    }

    /// Whether supervision is over: every task has ended. With no task at
    /// all it is over from the start.
    pub fn is_finished(&self) -> (finished: bool)
        ensures
            finished == all_ended(self@),
    {
        let mut i: usize = 0;
        while i < self.tasks.len()
            invariant
                i <= self.tasks.len(),
                self@.len() == self.tasks.len(),
                forall|k: int| 0 <= k < i ==> !((#[trigger] self@[k]).status is Running),
            decreases self.tasks.len() - i,
        {
            if let TaskStatus::Running = self.tasks[i].status {
                assert(self@[i as int].status is Running);
                return false;
            }
            i += 1;
        }
        true
    }

    /// Records that a task's watcher ended, and reports it if it ended in
    /// failure. No other task is touched, and supervision goes on for as long
    /// as any task is running.
    pub fn task_ended(&mut self, task: usize, outcome: Result<(), SetupError>) -> (report: Option<
        FailureReport,
    >)
        ensures
            final(self)@ == tasks_after_end(old(self)@, task as int, outcome),
            match report_of_end(old(self)@, task as int, outcome) {
                Some(expected) => report is Some && report->0@ == expected,
                None => report is None,
            },
    {
        if task >= self.tasks.len() {
            return None;
        }
        if let TaskStatus::Running = self.tasks[task].status {
        } else {
            return None;
        }
        let unit = self.tasks[task].unit.clone();
        let (status, report) = match outcome {
            Ok(_) => (TaskStatus::Done, None),
            Err(error) => (
                TaskStatus::Failed(error),
                Some(FailureReport { task, unit: unit.name().to_owned(), error }),
            ),
        };
        self.tasks.set(task, WatchTask { unit, status });
        report
    }
}

/// Supervision is over exactly when no task is running.
pub proof fn lemma_all_ended_iff_none_running(tasks: Seq<WatchTaskView>)
    ensures
        all_ended(tasks) <==> running_count(tasks) == 0,
    decreases tasks.len(),
{
    if tasks.len() > 0 {
        let earlier = tasks.drop_last();
        lemma_all_ended_iff_none_running(earlier);
        if all_ended(tasks) {
            assert(all_ended(earlier));
        }
        if running_count(tasks) == 0 {
            assert forall|i: int| 0 <= i < tasks.len() implies !((#[trigger] tasks[i]).status
                is Running) by {
                if i < earlier.len() {
                    assert(earlier[i] == tasks[i]);
                }
            }
        }
    }
}

/// The end of a running task takes exactly that task out of the count of
/// running tasks.
pub proof fn lemma_end_lowers_running_count(
    tasks: Seq<WatchTaskView>,
    task: int,
    outcome: Result<(), SetupError>,
)
    requires
        end_is_taken(tasks, task),
    ensures
        running_count(tasks_after_end(tasks, task, outcome)) + 1 == running_count(tasks),
    decreases tasks.len(),
{
    let after = tasks_after_end(tasks, task, outcome);
    if task == tasks.len() - 1 {
        assert(after.drop_last() =~= tasks.drop_last());
    } else {
        assert(after.drop_last() =~= tasks_after_end(tasks.drop_last(), task, outcome));
        lemma_end_lowers_running_count(tasks.drop_last(), task, outcome);
    }
}

/// The failure of one task stays with that task: every other task is as it
/// was, and supervision is over only once each of the others has ended too.
pub proof fn lemma_failure_is_isolated(tasks: Seq<WatchTaskView>, task: int, error: SetupError)
    requires
        end_is_taken(tasks, task),
    ensures
        tasks_after_end(tasks, task, Err(error)).len() == tasks.len(),
        tasks_after_end(tasks, task, Err(error))[task].status == TaskStatus::Failed(error),
        forall|other: int|
            0 <= other < tasks.len() && other != task ==> #[trigger] tasks_after_end(
                tasks,
                task,
                Err(error),
            )[other] == tasks[other],
        all_ended(tasks_after_end(tasks, task, Err(error))) <==> (forall|other: int|
            0 <= other < tasks.len() && other != task ==> !((#[trigger] tasks[other]).status
                is Running)),
{
    let after = tasks_after_end(tasks, task, Err(error));
    if all_ended(after) {
        assert forall|other: int| 0 <= other < tasks.len() && other != task implies !((
        #[trigger] tasks[other]).status is Running) by {
            assert(after[other] == tasks[other]);
        }
    }
    if forall|other: int|
        0 <= other < tasks.len() && other != task ==> !((#[trigger] tasks[other]).status
            is Running) {
        assert(all_ended(after));
    }
}

} // verus!
