use vstd::prelude::*;

verus! {

/// Progress of a task.
#[derive(Debug, Clone, Copy, PartialEq, Eq, Structural)]
pub enum Status {
    NotStarted,
    Completed,
}

/// Importance of a task.
#[derive(Debug, Clone, Copy, PartialEq, Eq, Structural)]
pub enum Priority {
    Low,
    Normal,
    High,
}

impl Priority {
    /// The priority a numeric level stands for: zero and below are low,
    /// one is normal, two and above are high.
    pub open spec fn spec_from_level(level: i32) -> Priority {
        if level <= 0 {
            Priority::Low
        } else if level == 1 {
            Priority::Normal
        } else {
            Priority::High
        }
    }

    pub fn from_level(level: i32) -> (r: Priority)
        ensures
            r == Self::spec_from_level(level),
    {
        if level <= 0 {
            Priority::Low
        } else if level == 1 {
            Priority::Normal
        } else {
            Priority::High
        }
    }
}

/// A day of the week.
#[derive(Debug, Clone, Copy, PartialEq, Eq, Structural)]
pub enum Day {
    Monday,
    Tuesday,
    Wednesday,
    Thursday,
    Friday,
    Saturday,
    Sunday,
}

/// The weekdays on which a task repeats.
#[derive(Debug, Clone, Copy, PartialEq, Eq, Structural)]
pub struct Recurrence {
    pub monday: bool,
    pub tuesday: bool,
    pub wednesday: bool,
    pub thursday: bool,
    pub friday: bool,
    pub saturday: bool,
    pub sunday: bool,
}

impl Recurrence {
    pub open spec fn spec_on(self, day: Day) -> bool {
        match day {
            Day::Monday => self.monday,
            Day::Tuesday => self.tuesday,
            Day::Wednesday => self.wednesday,
            Day::Thursday => self.thursday,
            Day::Friday => self.friday,
            Day::Saturday => self.saturday,
            Day::Sunday => self.sunday,
        }
    }

    /// A recurrence on no day at all.
    pub fn none() -> (r: Recurrence)
        ensures
            forall|d: Day| !r.spec_on(d),
    {
        Recurrence {
            monday: false,
            tuesday: false,
            wednesday: false,
            thursday: false,
            friday: false,
            saturday: false,
            sunday: false,
        }
    }

    /// Turns `day` on or off and leaves the other days as they are.
    pub fn set_day(&mut self, day: Day, active: bool)
        ensures
            final(self).spec_on(day) == active,
            forall|d: Day| d != day ==> final(self).spec_on(d) == old(self).spec_on(d),
    {
        match day {
            Day::Monday => self.monday = active,
            Day::Tuesday => self.tuesday = active,
            Day::Wednesday => self.wednesday = active,
            Day::Thursday => self.thursday = active,
            Day::Friday => self.friday = active,
            Day::Saturday => self.saturday = active,
            Day::Sunday => self.sunday = active,
        }
    }
}

/// Earliest number of seconds since the Unix epoch that a timestamp may hold: the
/// start of a day, well inside the calendar's range.
pub const MIN_SECS: i64 = -7_999_999_948_800;

/// Latest number of seconds since the Unix epoch that a timestamp may hold: the
/// last second of a day, well inside the calendar's range.
pub const MAX_SECS: i64 = 7_999_999_948_799;

pub const SECS_PER_DAY: i64 = 86_400;

/// An instant in UTC: whole seconds since the Unix epoch and the nanoseconds past them.
#[derive(Debug, Clone, Copy, PartialEq, Eq, Structural)]
pub struct Timestamp {
    pub secs: i64,
    pub nanos: u32,
}

impl Timestamp {
    /// Within the span of whole days that timestamps may cover.
    pub open spec fn valid(self) -> bool {
        MIN_SECS <= self.secs <= MAX_SECS && self.nanos < 1_000_000_000
    }
}

/// A task as a provider stores it. Sub-tasks have the same shape and live
/// only inside their parent.
#[derive(Debug, PartialEq, Eq)]
pub struct Task {
    pub id: String,
    pub parent: String,
    pub title: String,
    pub notes: Option<String>,
    pub status: Status,
    pub priority: Priority,
    pub favorite: bool,
    pub today: bool,
    pub due_date: Option<Timestamp>,
    pub reminder_date: Option<Timestamp>,
    pub recurrence: Recurrence,
    pub sub_tasks: Vec<Task>,
}

impl Task {
    /// A task with the given identity and title and every other field empty.
    pub fn new(id: String, parent: String, title: String) -> (r: Task)
        ensures
            r.id == id,
            r.parent == parent,
            r.title == title,
            r.notes.is_none(),
            r.status == Status::NotStarted,
            r.priority == Priority::Low,
            !r.favorite,
            !r.today,
            r.due_date.is_none(),
            r.reminder_date.is_none(),
            forall|d: Day| !r.recurrence.spec_on(d),
            r.sub_tasks@.len() == 0,
    {
        Task {
            id,
            parent,
            title,
            notes: None,
            status: Status::NotStarted,
            priority: Priority::Low,
            favorite: false,
            today: false,
            due_date: None,
            reminder_date: None,
            recurrence: Recurrence::none(),
            sub_tasks: Vec::new(),
        }
    }

    /// A task with no identity, no title and every other field empty.
    pub fn empty() -> (r: Task)
        ensures
            r.id@.len() == 0,
            r.parent@.len() == 0,
            r.title@.len() == 0,
            r.notes.is_none(),
            r.status == Status::NotStarted,
            r.priority == Priority::Low,
            !r.favorite,
            !r.today,
            r.due_date.is_none(),
            r.reminder_date.is_none(),
            forall|d: Day| !r.recurrence.spec_on(d),
            r.sub_tasks@.len() == 0,
    {
        Task::new(String::new(), String::new(), String::new())
    }
}

impl Task {
    /// Two tasks agree on every field but their sub-tasks.
    pub open spec fn fields_match(self, other: Task) -> bool {
        &&& self.id@ == other.id@
        &&& self.parent@ == other.parent@
        &&& self.title@ == other.title@
        &&& self.notes == other.notes
        &&& self.status == other.status
        &&& self.priority == other.priority
        &&& self.favorite == other.favorite
        &&& self.today == other.today
        &&& self.due_date == other.due_date
        &&& self.reminder_date == other.reminder_date
        &&& self.recurrence == other.recurrence
    }

    /// Two tasks hold the same values: their own fields, and those of their sub-tasks,
    /// at every depth.
    pub open spec fn same(self, other: Task) -> bool
        decreases self,
    {
        &&& self.fields_match(other)
        &&& all_same(self.sub_tasks@, other.sub_tasks@)
    }
}

/// Two sequences of tasks hold the same tasks, one for one, as `Task::same` says.
pub open spec fn all_same(a: Seq<Task>, b: Seq<Task>) -> bool
    decreases a,
{
    &&& a.len() == b.len()
    &&& a.len() > 0 ==> {
        &&& all_same(a.drop_last(), b.drop_last())
        &&& a.last().same(b.last())
    }
}

/// A copy of `t`, sub-tasks included.
fn copy_task(t: &Task) -> (r: Task)
    ensures
        t.same(r),
    decreases t,
{
    let mut sub_tasks: Vec<Task> = Vec::new();
    let mut i: usize = 0;
    proof {
        assert(t.sub_tasks@.subrange(0, 0) =~= Seq::<Task>::empty());
    }
    while i < t.sub_tasks.len()
        invariant
            i <= t.sub_tasks@.len(),
            all_same(t.sub_tasks@.subrange(0, i as int), sub_tasks@),
        decreases t.sub_tasks@.len() - i,
    {
        proof {
            assert(decreases_to!(t.sub_tasks => t.sub_tasks[i as int]));
        }
        let s = copy_task(&t.sub_tasks[i]);
        let ghost before = sub_tasks@;
        sub_tasks.push(s);
        i = i + 1;
        proof {
            let done = t.sub_tasks@.subrange(0, i as int);
            assert(done.drop_last() =~= t.sub_tasks@.subrange(0, i - 1));
            assert(sub_tasks@.drop_last() =~= before);
            assert(done.last() == t.sub_tasks@[i - 1]);
        }
    }
    proof {
        assert(t.sub_tasks@.subrange(0, i as int) =~= t.sub_tasks@);
    }
    let r = Task {
        id: t.id.clone(),
        parent: t.parent.clone(),
        title: t.title.clone(),
        notes: match &t.notes {
            Some(n) => Some(n.clone()),
            None => None,
        },
        status: t.status,
        priority: t.priority,
        favorite: t.favorite,
        today: t.today,
        due_date: t.due_date,
        reminder_date: t.reminder_date,
        recurrence: t.recurrence,
        sub_tasks,
    };
    r
}

impl Clone for Task {
    fn clone(&self) -> (r: Task)
        ensures
            self.same(r),
    {
        copy_task(self)
    }
}

/// A task list as a provider stores it.
#[derive(Debug, PartialEq, Eq)]
pub struct List {
    pub id: String,
    pub name: String,
    pub provider: String,
}

impl List {
    pub fn new(id: String, name: String, provider: String) -> (r: List)
        ensures
            r.id == id,
            r.name == name,
            r.provider == provider,
    {
        List { id, name, provider }
    }
}

impl Clone for List {
    fn clone(&self) -> (r: List)
        ensures
            r == *self,
    {
        List { id: self.id.clone(), name: self.name.clone(), provider: self.provider.clone() }
    }
}

/// A task-storage provider that the application can connect to.
#[derive(Debug, PartialEq, Eq)]
pub struct Plugin {
    pub id: String,
    pub name: String,
    pub is_running: bool,
}

impl Plugin {
    pub fn new(id: String, name: String, is_running: bool) -> (r: Plugin)
        ensures
            r.id == id,
            r.name == name,
            r.is_running == is_running,
    {
        Plugin { id, name, is_running }
    }
}

impl Clone for Plugin {
    fn clone(&self) -> (r: Plugin)
        ensures
            r == *self,
    {
        Plugin { id: self.id.clone(), name: self.name.clone(), is_running: self.is_running }
    }
}

/// What a provider answers to a create, update or delete call.
#[derive(Debug, PartialEq, Eq)]
pub struct Ack {
    pub successful: bool,
    pub message: String,
}

/// A short message shown to the user for a moment.
#[derive(Debug, PartialEq, Eq)]
pub struct Toast {
    pub title: String,
    pub timeout: u32,
}

} // verus!
