use vstd::prelude::*;

use crate::model::{Day, List, Priority, Status, Task, Timestamp, MAX_SECS, MIN_SECS, SECS_PER_DAY};
use crate::timestamp::{add_one_day, secs_with_hour, secs_with_minute, with_hour, with_minute};

verus! {

/// Which of a task's dates an edit is about.
#[derive(Debug, Clone, Copy, PartialEq, Eq, Structural)]
pub enum DateType {
    Reminder,
    DueDate,
}

/// A date picked by a shortcut rather than from a calendar.
#[derive(Debug, Clone, Copy, PartialEq, Eq, Structural)]
pub enum DateDay {
    Today,
    Tomorrow,
    NoDate,
}

/// One row of a task list: the task, the list it was loaded from, and its position.
#[derive(Debug)]
pub struct TaskModel {
    pub task: Task,
    pub parent_list: List,
    pub index: usize,
}

/// What a row is built from.
#[derive(Debug)]
pub struct TaskInit {
    pub task: Task,
    pub parent_list: List,
}

impl TaskInit {
    pub fn new(task: Task, parent_list: List) -> (r: TaskInit)
        ensures
            r.task == task,
            r.parent_list == parent_list,
    {
        TaskInit { task, parent_list }
    }
}

/// An edit that the user makes to a task.
#[derive(Debug)]
pub enum TaskInput {
    SetCompleted(bool),
    ModifyTitle(String),
    Favorite,
    SetNotes(Option<String>),
    SetPriority(i32),
    SetStatus(bool),
    SetToday(bool),
    SetDueDate(Option<Timestamp>),
    SetReminderDate(Option<Timestamp>),
    SetReminderHour(u32),
    SetReminderMinute(u32),
    SetDayInRecurrence(bool, Day),
    SetDate(DateType, DateDay),
    UpdateSubTask(usize, Task),
    RemoveSubTask(usize),
    CreateSubTask,
}

/// What a row reports to the list that holds it.
#[derive(Debug)]
pub enum TaskOutput {
    Remove(usize),
    UpdateTask(Task),
}

/// An absent date, or one that timestamps may hold.
pub open spec fn date_ok(d: Option<Timestamp>) -> bool {
    match d {
        Some(t) => t.valid(),
        None => true,
    }
}

/// A clock reading from which the next day is still a valid timestamp.
pub open spec fn now_ok(now: Timestamp) -> bool {
    now.valid() && now.secs <= MAX_SECS - SECS_PER_DAY
}

impl TaskInput {
    /// Every date that the edit carries is one that timestamps may hold.
    pub open spec fn valid(self) -> bool {
        match self {
            TaskInput::SetDueDate(d) => date_ok(d),
            TaskInput::SetReminderDate(d) => date_ok(d),
            _ => true,
        }
    }
}

/// The status that a check box stands for.
pub open spec fn status_of(completed: bool) -> Status {
    if completed {
        Status::Completed
    } else {
        Status::NotStarted
    }
}

/// The date that a shortcut picks, seen at the instant `now`.
pub open spec fn day_value(day: DateDay, now: Timestamp) -> Option<Timestamp> {
    match day {
        DateDay::Today => Some(now),
        DateDay::Tomorrow => Some(Timestamp { secs: (now.secs + SECS_PER_DAY) as i64, nanos: now.nanos }),
        DateDay::NoDate => None,
    }
}

/// `t` at the hour `hour` of its day.
pub open spec fn at_hour(t: Timestamp, hour: u32) -> Timestamp {
    Timestamp { secs: secs_with_hour(t.secs as int, hour as int) as i64, nanos: t.nanos }
}

/// `t` at the minute `minute` of its hour.
pub open spec fn at_minute(t: Timestamp, minute: u32) -> Timestamp {
    Timestamp { secs: secs_with_minute(t.secs as int, minute as int) as i64, nanos: t.nanos }
}

/// The reminder after its hour is set: an existing reminder moves to that hour of its
/// day; without one, the reminder is today at that hour, minute zero. An hour past 23
/// changes nothing.
pub open spec fn reminder_at_hour(r: Option<Timestamp>, hour: u32, now: Timestamp) -> Option<
    Timestamp,
> {
    if hour >= 24 {
        r
    } else {
        match r {
            Some(d) => Some(at_hour(d, hour)),
            None => Some(at_minute(at_hour(now, hour), 0)),
        }
    }
}

/// The reminder after its minute is set: an existing reminder moves to that minute of
/// its hour; without one, the reminder is today at hour zero and that minute. A minute
/// past 59 changes nothing.
pub open spec fn reminder_at_minute(r: Option<Timestamp>, minute: u32, now: Timestamp) -> Option<
    Timestamp,
> {
    if minute >= 60 {
        r
    } else {
        match r {
            Some(d) => Some(at_minute(d, minute)),
            None => Some(at_minute(at_hour(now, 0), minute)),
        }
    }
}

/// A sub-task as it is created: no identity, no title, nothing set.
pub open spec fn is_blank(t: Task) -> bool {
    &&& t.id@.len() == 0
    &&& t.parent@.len() == 0
    &&& t.title@.len() == 0
    &&& t.notes.is_none()
    &&& t.status == Status::NotStarted
    &&& t.priority == Priority::Low
    &&& !t.favorite
    &&& !t.today
    &&& t.due_date.is_none()
    &&& t.reminder_date.is_none()
    &&& forall|d: Day| !t.recurrence.spec_on(d)
    &&& t.sub_tasks@.len() == 0
}

/// What an edit does to a task: `n` is `o` after `message`, read at the instant `now`.
pub open spec fn edited(o: Task, n: Task, message: TaskInput, now: Timestamp) -> bool {
    match message {
        TaskInput::SetNotes(notes) => n == (Task { notes: notes, ..o }),
        TaskInput::SetPriority(level) => n == (Task { priority: Priority::spec_from_level(level), ..o }),
        TaskInput::SetStatus(done) => n == (Task { status: status_of(done), ..o }),
        TaskInput::SetCompleted(done) => n == (Task { status: status_of(done), ..o }),
        TaskInput::SetToday(today) => n == (Task { today: today, ..o }),
        TaskInput::Favorite => n == (Task { favorite: !o.favorite, ..o }),
        TaskInput::ModifyTitle(title) => n == (Task { title: n.title, ..o }) && n.title@ == title@,
        TaskInput::SetDate(DateType::Reminder, day) => n == (Task {
            reminder_date: day_value(day, now),
            ..o
        }),
        TaskInput::SetDate(DateType::DueDate, day) => n == (Task {
            due_date: day_value(day, now),
            ..o
        }),
        TaskInput::SetDueDate(d) => n == (Task { due_date: d, ..o }),
        TaskInput::SetReminderDate(d) => n == (Task { reminder_date: d, ..o }),
        TaskInput::SetReminderHour(hour) => n == (Task {
            reminder_date: reminder_at_hour(o.reminder_date, hour, now),
            ..o
        }),
        TaskInput::SetReminderMinute(minute) => n == (Task {
            reminder_date: reminder_at_minute(o.reminder_date, minute, now),
            ..o
        }),
        TaskInput::SetDayInRecurrence(active, day) => {
            &&& n == (Task { recurrence: n.recurrence, ..o })
            &&& n.recurrence.spec_on(day) == active
            &&& forall|d: Day| d != day ==> n.recurrence.spec_on(d) == o.recurrence.spec_on(d)
        },
        TaskInput::CreateSubTask => {
            &&& n == (Task { sub_tasks: n.sub_tasks, ..o })
            &&& n.sub_tasks@.len() == o.sub_tasks@.len() + 1
            &&& n.sub_tasks@.drop_last() == o.sub_tasks@
            &&& is_blank(n.sub_tasks@.last())
        },
        TaskInput::UpdateSubTask(i, sub_task) => {
            &&& n == (Task { sub_tasks: n.sub_tasks, ..o })
            &&& n.sub_tasks@ == if i < o.sub_tasks@.len() {
                o.sub_tasks@.update(i as int, sub_task)
            } else {
                o.sub_tasks@
            }
        },
        TaskInput::RemoveSubTask(i) => {
            &&& n == (Task { sub_tasks: n.sub_tasks, ..o })
            &&& n.sub_tasks@ == if i < o.sub_tasks@.len() {
                o.sub_tasks@.remove(i as int)
            } else {
                o.sub_tasks@
            }
        },
    }
}

/// The day of a valid instant lies within the span that timestamps may cover.
proof fn lemma_day_in_range(secs: int)
    requires
        MIN_SECS <= secs <= MAX_SECS,
    ensures
        MIN_SECS <= secs - secs % 86_400,
        secs - secs % 86_400 + 86_399 <= MAX_SECS,
        0 <= secs % 86_400 < 86_400,
        0 <= secs % 3600 < 3600,
        (secs - secs % 86_400) % 3600 == 0,
        secs % 3600 <= secs % 86_400,
{
    let q = secs / 86_400;
    assert(secs == q * 86_400 + secs % 86_400);
    assert(MIN_SECS == -92_592_592 * 86_400);
    assert(MAX_SECS + 1 == 92_592_592 * 86_400);
    assert(q >= -92_592_592) by (nonlinear_arith)
        requires
            secs == q * 86_400 + secs % 86_400,
            0 <= secs % 86_400 < 86_400,
            -92_592_592 * 86_400 <= secs,
    ;
    assert(q < 92_592_592) by (nonlinear_arith)
        requires
            secs == q * 86_400 + secs % 86_400,
            0 <= secs % 86_400 < 86_400,
            secs < 92_592_592 * 86_400,
    ;
    assert((q * 86_400) % 3600 == 0) by (nonlinear_arith);
    assert(secs % 3600 == (secs % 86_400) % 3600) by (nonlinear_arith)
        requires
            secs == q * 86_400 + secs % 86_400,
            0 <= secs % 86_400 < 86_400,
    ;
}

/// Setting the hour keeps a valid instant valid.
proof fn lemma_at_hour_valid(t: Timestamp, hour: u32)
    requires
        t.valid(),
        hour < 24,
    ensures
        at_hour(t, hour).valid(),
        at_hour(t, hour).secs == secs_with_hour(t.secs as int, hour as int),
{
    lemma_day_in_range(t.secs as int);
}

/// Setting the minute keeps a valid instant valid.
proof fn lemma_at_minute_valid(t: Timestamp, minute: u32)
    requires
        t.valid(),
        minute < 60,
    ensures
        at_minute(t, minute).valid(),
        at_minute(t, minute).secs == secs_with_minute(t.secs as int, minute as int),
{
    let secs = t.secs as int;
    lemma_day_in_range(secs);
    let h = secs / 3600;
    assert(secs == h * 3600 + secs % 3600);
    assert(MIN_SECS == -2_222_222_208 * 3600);
    assert(MAX_SECS + 1 == 2_222_222_208 * 3600);
    assert(h >= -2_222_222_208) by (nonlinear_arith)
        requires
            secs == h * 3600 + secs % 3600,
            0 <= secs % 3600 < 3600,
            -2_222_222_208 * 3600 <= secs,
    ;
    assert(h < 2_222_222_208) by (nonlinear_arith)
        requires
            secs == h * 3600 + secs % 3600,
            0 <= secs % 3600 < 3600,
            secs < 2_222_222_208 * 3600,
    ;
    assert(0 <= secs % 60 < 60);
    assert(secs % 60 <= secs % 3600) by (nonlinear_arith)
        requires
            secs == h * 3600 + secs % 3600,
            0 <= secs % 3600 < 3600,
    ;
}

/// The date that a shortcut picks, seen at the instant `now`.
fn pick_day(day: DateDay, now: Timestamp) -> (r: Option<Timestamp>)
    requires
        now_ok(now),
    ensures
        r == day_value(day, now),
        date_ok(r),
{
    match day {
        DateDay::Today => Some(now),
        DateDay::Tomorrow => add_one_day(now),
        DateDay::NoDate => None,
    }
}

/// The reminder `r` after its hour is set to `hour`.
fn reminder_hour(r: Option<Timestamp>, hour: u32, now: Timestamp) -> (x: Option<Timestamp>)
    requires
        date_ok(r),
        now_ok(now),
    ensures
        x == reminder_at_hour(r, hour, now),
        date_ok(x),
{
    match r {
        Some(date) => {
            if hour < 24 {
                proof {
                    lemma_at_hour_valid(date, hour);
                }
            }
            match with_hour(date, hour) {
                Some(moved) => Some(moved),
                None => r,
            }
        },
        None => {
            if hour < 24 {
                proof {
                    lemma_at_hour_valid(now, hour);
                    lemma_at_minute_valid(at_hour(now, hour), 0);
                }
            }
            match with_hour(now, hour) {
                Some(at) => match with_minute(at, 0) {
                    Some(at) => Some(at),
                    None => r,
                },
                None => r,
            }
        },
    }
}

/// The reminder `r` after its minute is set to `minute`.
fn reminder_minute(r: Option<Timestamp>, minute: u32, now: Timestamp) -> (x: Option<Timestamp>)
    requires
        date_ok(r),
        now_ok(now),
    ensures
        x == reminder_at_minute(r, minute, now),
        date_ok(x),
{
    match r {
        Some(date) => {
            if minute < 60 {
                proof {
                    lemma_at_minute_valid(date, minute);
                }
            }
            match with_minute(date, minute) {
                Some(moved) => Some(moved),
                None => r,
            }
        },
        None => {
            proof {
                lemma_at_hour_valid(now, 0);
                if minute < 60 {
                    lemma_at_minute_valid(at_hour(now, 0), minute);
                }
            }
            match with_hour(now, 0) {
                Some(at) => match with_minute(at, minute) {
                    Some(at) => Some(at),
                    None => r,
                },
                None => r,
            }
        },
    }
}

impl TaskModel {
    /// The dates that the task holds are ones that timestamps may hold.
    pub open spec fn wf(self) -> bool {
        date_ok(self.task.due_date) && date_ok(self.task.reminder_date)
    }

    /// A row for `init.task` at position `index`.
    ///
    /// The task takes the identifier of the list it was loaded from as its parent.
    pub fn init_model(init: TaskInit, index: usize) -> (r: TaskModel)
        ensures
            r.task == (Task { parent: init.parent_list.id, ..init.task }),
            r.parent_list == init.parent_list,
            r.index == index,
    {
        let mut task = init.task;
        task.parent = init.parent_list.id.clone();
        TaskModel { task, parent_list: init.parent_list, index }
    }

    /// What the row reports when the user asks to delete its task.
    pub fn remove_request(&self) -> (r: TaskOutput)
        ensures
            r == TaskOutput::Remove(self.index),
    {
        TaskOutput::Remove(self.index)
    }

    /// Applies one edit to the task, read at the instant `now`, and reports the task
    /// as it now stands.
    pub fn update(&mut self, message: TaskInput, now: Timestamp) -> (r: TaskOutput)
        requires
            old(self).wf(),
            message.valid(),
            now_ok(now),
        ensures
            final(self).wf(),
            edited(old(self).task, final(self).task, message, now),
            final(self).parent_list == old(self).parent_list,
            final(self).index == old(self).index,
            match r {
                TaskOutput::UpdateTask(t) => final(self).task.same(t),
                TaskOutput::Remove(_) => false,
            },
    {
        self.apply(message, now);
        TaskOutput::UpdateTask(self.task.clone())
    }

    #[verifier::rlimit(40)]
    fn apply(&mut self, message: TaskInput, now: Timestamp)
        requires
            old(self).wf(),
            message.valid(),
            now_ok(now),
        ensures
            final(self).wf(),
            edited(old(self).task, final(self).task, message, now),
            final(self).parent_list == old(self).parent_list,
            final(self).index == old(self).index,
    {
        match message {
            TaskInput::SetNotes(notes) => {
                self.task.notes = notes;
            },
            TaskInput::SetPriority(level) => {
                self.task.priority = Priority::from_level(level);
            },
            TaskInput::SetStatus(done) => {
                self.task.status = if done {
                    Status::Completed
                } else {
                    Status::NotStarted
                };
            },
            TaskInput::SetToday(today) => {
                self.task.today = today;
            },
            TaskInput::SetCompleted(done) => {
                self.task.status = if done {
                    Status::Completed
                } else {
                    Status::NotStarted
                };
            },
            TaskInput::Favorite => {
                self.task.favorite = !self.task.favorite;
            },
            TaskInput::ModifyTitle(title) => {
                if title != self.task.title {
                    self.task.title = title;
                }
            },
            TaskInput::SetDate(kind, day) => {
                let date = pick_day(day, now);
                match kind {
                    DateType::Reminder => {
                        self.task.reminder_date = date;
                    },
                    DateType::DueDate => {
                        self.task.due_date = date;
                    },
                }
            },
            TaskInput::SetDueDate(date) => {
                self.task.due_date = date;
            },
            TaskInput::SetReminderDate(date) => {
                self.task.reminder_date = date;
            },
            TaskInput::SetReminderHour(hour) => {
                self.task.reminder_date = reminder_hour(self.task.reminder_date, hour, now);
            },
            TaskInput::SetReminderMinute(minute) => {
                self.task.reminder_date = reminder_minute(self.task.reminder_date, minute, now);
            },
            TaskInput::SetDayInRecurrence(active, day) => {
                self.task.recurrence.set_day(day, active);
            },
            TaskInput::CreateSubTask => {
                self.task.sub_tasks.push(Task::empty());
                proof {
                    assert(self.task.sub_tasks@.drop_last() =~= old(self).task.sub_tasks@);
                }
            },
            TaskInput::UpdateSubTask(i, sub_task) => {
                if i < self.task.sub_tasks.len() {
                    self.task.sub_tasks.set(i, sub_task);
                }
            },
            TaskInput::RemoveSubTask(i) => {
                if i < self.task.sub_tasks.len() {
                    self.task.sub_tasks.remove(i);
                }
            },
        }
    }
}

} // verus!
