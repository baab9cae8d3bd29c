use vstd::prelude::*;

use crate::model::{Ack, List, Plugin, Task, Toast};
use crate::registry::{ConnectError, PluginRegistry};
use crate::toast::{toast, toast_str};

verus! {

/// The task view: the tasks of the selected list, in the order the provider gave them.
///
/// A selection is filled in the background: the tasks of the new list collect in
/// `loading` while the old ones stay on show, and take their place at once when the
/// stream has ended.
#[derive(Debug)]
pub struct ContentModel {
    pub current_provider: Plugin,
    pub parent_list: Option<List>,
    pub tasks: Vec<Task>,
    pub loading: Option<Vec<Task>>,
    /// The token of the latest selection; messages that carry another belong to a
    /// stream that was superseded.
    pub selection: u64,
}

/// A command for the task view.
#[derive(Debug)]
pub enum ContentInput {
    AddTask(Task),
    RemoveTask(usize),
    UpdateTask(Option<usize>, Task),
    SetTaskList(List),
    SetProvider(Plugin),
}

/// What the task view reports to its owner: a notification for the user.
#[derive(Debug)]
pub enum ContentOutput {
    Notify(Toast),
}

/// What follows a command for the task view. The provider calls are made by the
/// caller, which hands each answer back to the matching method of `ContentModel`.
#[derive(Debug)]
pub enum ContentStep {
    /// Nothing to do.
    Nothing,
    /// Show this notification; nothing else happens.
    Notify(Toast),
    /// The command named a position past the end of the view; nothing else happens.
    OutOfRange(IndexError),
    /// Ask `plugin` to create `task`, then hand the answer to `ContentModel::add_task`.
    CreateTask { plugin: Plugin, task: Task },
    /// Ask `plugin` to delete the task `task_id`, then hand the answer to
    /// `ContentModel::remove_task` with `index`.
    DeleteTask { plugin: Plugin, index: usize, task_id: String },
    /// Ask `plugin` to store `task`, then hand the answer to `ContentModel::update_task`
    /// with `index`.
    UpdateTask { plugin: Plugin, index: Option<usize>, task: Task },
    /// Stream the tasks of the list `list_id` from `plugin` into
    /// `ContentModel::receive_task`, then call `ContentModel::finish_task_list`, each
    /// with `selection`.
    StreamTasks { plugin: Plugin, list_id: String, selection: u64 },
}

/// A command named a position past the end of the task view.
#[derive(Debug, Clone, Copy, PartialEq, Eq, Structural)]
pub struct IndexError {
    pub index: usize,
    pub len: usize,
}

impl IndexError {
    /// The notification that reports the error.
    pub fn toast(&self) -> (r: Toast)
        ensures
            r.title@ == "No task at that position."@,
            r.timeout == 1,
    {
        toast_str("No task at that position.")
    }
}

/// The list is a filter over all tasks ("starred") rather than a stored list.
pub open spec fn is_starred(list: Option<List>) -> bool {
    match list {
        Some(l) => l.provider@ == "starred"@,
        None => false,
    }
}

/// The provider accepted the call.
pub open spec fn accepted(outcome: Result<Ack, String>) -> bool {
    match outcome {
        Ok(ack) => ack.successful,
        Err(_) => false,
    }
}

/// The tasks that a stream delivered, in delivery order: the empty messages are skipped.
pub open spec fn delivered(items: Seq<Option<Task>>) -> Seq<Task> {
    items.filter(|o: Option<Task>| o is Some).map_values(|o: Option<Task>| o->Some_0)
}

/// The tasks collected so far after one more message of the stream.
pub open spec fn receive_step(loading: Option<Seq<Task>>, item: Option<Task>) -> Option<Seq<Task>> {
    match (loading, item) {
        (Some(s), Some(t)) => Some(s.push(t)),
        _ => loading,
    }
}

/// The tasks collected after the messages `items`, one after the other.
pub open spec fn receive_all(loading: Option<Seq<Task>>, items: Seq<Option<Task>>) -> Option<
    Seq<Task>,
>
    decreases items.len(),
{
    if items.len() == 0 {
        loading
    } else {
        receive_step(receive_all(loading, items.drop_last()), items.last())
    }
}

/// The text that reports a provider's answer: `done` when it accepted, `refused` when
/// it declined, and the transport's own words when the call failed.
pub open spec fn outcome_text(outcome: Result<Ack, String>, done: Seq<char>, refused: Seq<char>) -> Seq<char> {
    match outcome {
        Ok(ack) => if ack.successful {
            done
        } else {
            refused
        },
        Err(e) => e@,
    }
}

/// The text that reports the answer to creating a task: a declining provider says why.
pub open spec fn add_text(outcome: Result<Ack, String>) -> Seq<char> {
    match outcome {
        Ok(ack) => outcome_text(outcome, "Task added"@, ack.message@),
        Err(e) => e@,
    }
}

/// The token that follows `s`; it starts over after the largest.
pub open spec fn next_selection(s: u64) -> u64 {
    if s == u64::MAX {
        0
    } else {
        (s + 1) as u64
    }
}

/// The text "Failed to connect to P service." for the provider `p`.
pub open spec fn unreachable_text(p: Seq<char>) -> Seq<char> {
    "Failed to connect to "@ + p + " service."@
}

/// The notification for a provider that did not answer.
pub fn connect_failed(provider: &String) -> (r: Toast)
    ensures
        r.title@ == unreachable_text(provider@),
        r.timeout == 1,
{
    let text = String::from_str("Failed to connect to ").concat(provider.as_str()).concat(
        " service.",
    );
    toast(text)
}

impl ContentModel {
    /// The tasks being collected for a selection, if one is in progress.
    pub open spec fn pending(self) -> Option<Seq<Task>> {
        match self.loading {
            Some(v) => Some(v@),
            None => None,
        }
    }

    /// Task commands go to `p`: the first known provider with the selected list's identifier.
    pub open spec fn served_by(self, registry: PluginRegistry, p: Plugin) -> bool {
        match self.parent_list {
            Some(l) => exists|i: int| registry.first_with(l.provider@, i) && p == registry.plugins@[i],
            None => false,
        }
    }

    /// A list is selected whose provider no known provider matches.
    pub open spec fn provider_unknown(self, registry: PluginRegistry) -> bool {
        match self.parent_list {
            Some(l) => !registry.knows(l.provider@),
            None => false,
        }
    }

    /// The notification for a selected list whose provider is not known.
    pub open spec fn unknown_provider_toast(self, t: Toast) -> bool {
        match self.parent_list {
            Some(l) => t.title@ == ConnectError::NotFound.spec_message() && t.timeout == 1,
            None => false,
        }
    }

    /// An empty view of the provider `provider`, with no list selected.
    pub fn new(provider: Plugin) -> (r: ContentModel)
        ensures
            r.current_provider == provider,
            r.parent_list.is_none(),
            r.tasks@.len() == 0,
            r.pending().is_none(),
    {
        ContentModel {
            current_provider: provider,
            parent_list: None,
            tasks: Vec::new(),
            loading: None,
            selection: 0,
        }
    }

    /// The provider that task commands go to: that of the selected list. With no list
    /// selected there is none, and nothing is reported; a list whose provider is not
    /// known is reported.
    pub fn provider_for_tasks(&self, registry: &PluginRegistry) -> (r: Result<Plugin, Option<Toast>>)
        ensures
            match self.parent_list {
                None => r == Err::<Plugin, Option<Toast>>(None),
                Some(l) => match r {
                    Ok(p) => exists|i: int| registry.first_with(l.provider@, i) && p == registry.plugins@[i],
                    Err(None) => false,
                    Err(Some(t)) => !registry.knows(l.provider@) && t.title@
                        == ConnectError::NotFound.spec_message() && t.timeout == 1,
                },
            },
    {
        match &self.parent_list {
            None => Err(None),
            Some(list) => match registry.lookup(&list.provider) {
                Ok(p) => Ok(p),
                Err(e) => Err(Some(e.toast())),
            },
        }
    }

    /// Decides what a command needs. Task commands go to the provider of the selected
    /// list and change nothing here until it has answered; with no list selected they
    /// do nothing, and with a provider that is not known they only report it. Selecting
    /// a list of a known provider starts collecting its tasks; a list of an unknown
    /// provider is reported and changes nothing.
    pub fn update(&mut self, registry: &PluginRegistry, message: ContentInput) -> (r: ContentStep)
        ensures
            match message {
                ContentInput::AddTask(task) => {
                    &&& *final(self) == *old(self)
                    &&& old(self).parent_list is None ==> r is Nothing
                    &&& old(self).provider_unknown(*registry) ==> (r matches ContentStep::Notify(t)
                        && old(self).unknown_provider_toast(t))
                    &&& registry.knows_list_provider(old(self).parent_list) ==> (r matches ContentStep::CreateTask { plugin: p, task: t }
                        && t == task && old(self).served_by(*registry, p))
                },
                ContentInput::RemoveTask(index) => {
                    &&& *final(self) == *old(self)
                    &&& old(self).parent_list is None ==> r is Nothing
                    &&& old(self).provider_unknown(*registry) ==> (r matches ContentStep::Notify(t)
                        && old(self).unknown_provider_toast(t))
                    &&& registry.knows_list_provider(old(self).parent_list) ==> if index < old(self).tasks@.len() {
                        r matches ContentStep::DeleteTask { plugin: p, index: k, task_id: id } && k
                            == index && id == old(self).tasks@[index as int].id && old(self).served_by(*registry, p)
                    } else {
                        r == ContentStep::OutOfRange(IndexError { index, len: old(self).tasks@.len() as usize })
                    }
                },
                ContentInput::UpdateTask(index, task) => {
                    &&& *final(self) == *old(self)
                    &&& old(self).parent_list is None ==> r is Nothing
                    &&& old(self).provider_unknown(*registry) ==> (r matches ContentStep::Notify(t)
                        && old(self).unknown_provider_toast(t))
                    &&& registry.knows_list_provider(old(self).parent_list) ==> (r matches ContentStep::UpdateTask { plugin: p, index: k, task: t }
                        && k == index && t == task && old(self).served_by(*registry, p))
                },
                ContentInput::SetTaskList(list) => if registry.knows(list.provider@) {
                    &&& final(self).parent_list == Some(list)
                    &&& final(self).pending() == Some(Seq::<Task>::empty())
                    &&& final(self).tasks == old(self).tasks
                    &&& final(self).current_provider == old(self).current_provider
                    &&& final(self).selection == next_selection(old(self).selection)
                    &&& r matches ContentStep::StreamTasks { plugin: p, list_id: id, selection: k }
                        && id == list.id && k == final(self).selection
                        && exists|i: int| registry.first_with(list.provider@, i) && p == registry.plugins@[i]
                } else {
                    &&& *final(self) == *old(self)
                    &&& r matches ContentStep::Notify(t) && t.title@ == ConnectError::NotFound.spec_message()
                        && t.timeout == 1
                },
                ContentInput::SetProvider(provider) => {
                    &&& final(self).current_provider == provider
                    &&& final(self).parent_list.is_none()
                    &&& final(self).pending().is_none()
                    &&& final(self).tasks == old(self).tasks
                    &&& r is Nothing
                },
            },
    {
        match message {
            ContentInput::AddTask(task) => match self.provider_for_tasks(registry) {
                Ok(plugin) => ContentStep::CreateTask { plugin, task },
                Err(Some(t)) => ContentStep::Notify(t),
                Err(None) => ContentStep::Nothing,
            },
            ContentInput::RemoveTask(index) => match self.provider_for_tasks(registry) {
                Ok(plugin) => match self.task_id_at(index) {
                    Ok(task_id) => ContentStep::DeleteTask { plugin, index, task_id },
                    Err(e) => ContentStep::OutOfRange(e),
                },
                Err(Some(t)) => ContentStep::Notify(t),
                Err(None) => ContentStep::Nothing,
            },
            ContentInput::UpdateTask(index, task) => match self.provider_for_tasks(registry) {
                Ok(plugin) => ContentStep::UpdateTask { plugin, index, task },
                Err(Some(t)) => ContentStep::Notify(t),
                Err(None) => ContentStep::Nothing,
            },
            ContentInput::SetTaskList(list) => match registry.lookup(&list.provider) {
                Ok(plugin) => {
                    let list_id = list.id.clone();
                    let selection = self.begin_task_list(list);
                    ContentStep::StreamTasks { plugin, list_id, selection }
                },
                Err(e) => ContentStep::Notify(e.toast()),
            },
            ContentInput::SetProvider(provider) => {
                self.set_provider(provider);
                ContentStep::Nothing
            },
        }
    }

    /// The identifier of the task at `index`, which a delete call needs.
    pub fn task_id_at(&self, index: usize) -> (r: Result<String, IndexError>)
        ensures
            index < self.tasks@.len() ==> r == Ok::<String, IndexError>(self.tasks@[index as int].id),
            index >= self.tasks@.len() ==> r == Err::<String, IndexError>(
                IndexError { index, len: self.tasks@.len() as usize },
            ),
    {
        if index < self.tasks.len() {
            Ok(self.tasks[index].id.clone())
        } else {
            Err(IndexError { index, len: self.tasks.len() })
        }
    }

    /// Takes in the provider's answer to creating `task`: when it accepted, the task
    /// joins the end of the view; otherwise nothing changes and the reason is reported.
    pub fn add_task(&mut self, task: Task, outcome: Result<Ack, String>) -> (r: Toast)
        ensures
            r.timeout == 1,
            accepted(outcome) ==> {
                &&& final(self).tasks@ == old(self).tasks@.push(task)
                &&& final(self).parent_list == old(self).parent_list
                &&& final(self).current_provider == old(self).current_provider
                &&& final(self).loading == old(self).loading
            },
            !accepted(outcome) ==> *final(self) == *old(self),
            r.title@ == add_text(outcome),
    {
        match outcome {
            Ok(ack) => {
                if ack.successful {
                    self.tasks.push(task);
                    toast_str("Task added")
                } else {
                    toast(ack.message)
                }
            },
            Err(e) => toast(e),
        }
    }

    /// Takes in the provider's answer to deleting the task at `index`: when it accepted,
    /// the task leaves the view. A position past the end is an error and changes nothing.
    pub fn remove_task(&mut self, index: usize, outcome: Result<Ack, String>) -> (r: Result<
        Toast,
        IndexError,
    >)
        ensures
            index >= old(self).tasks@.len() ==> {
                &&& r == Err::<Toast, IndexError>(IndexError { index, len: old(self).tasks@.len() as usize })
                &&& *final(self) == *old(self)
            },
            index < old(self).tasks@.len() ==> {
                &&& accepted(outcome) ==> {
                    &&& final(self).tasks@ == old(self).tasks@.remove(index as int)
                    &&& final(self).parent_list == old(self).parent_list
                    &&& final(self).current_provider == old(self).current_provider
                    &&& final(self).loading == old(self).loading
                }
                &&& !accepted(outcome) ==> *final(self) == *old(self)
                &&& r == Ok::<Toast, IndexError>(Toast { title: r->Ok_0.title, timeout: 1 })
                &&& r->Ok_0.title@ == outcome_text(outcome, "Task removed."@, "Failed to remove task."@)
            },
    {
        if index >= self.tasks.len() {
            return Err(IndexError { index, len: self.tasks.len() });
        }
        match outcome {
            Ok(ack) => {
                if ack.successful {
                    self.tasks.remove(index);
                    Ok(toast_str("Task removed."))
                } else {
                    Ok(toast_str("Failed to remove task."))
                }
            },
            Err(e) => Ok(toast(e)),
        }
    }

    /// Takes in the provider's answer to updating the task at `index`. When it
    /// accepted and the view shows the starred filter, the task leaves the view,
    /// whatever it now holds; otherwise the view keeps it.
    pub fn update_task(&mut self, index: Option<usize>, outcome: Result<Ack, String>) -> (r: Toast)
        ensures
            r.timeout == 1,
            accepted(outcome) ==> {
                &&& final(self).tasks@ == match index {
                    Some(i) => if is_starred(old(self).parent_list) && i < old(self).tasks@.len() {
                        old(self).tasks@.remove(i as int)
                    } else {
                        old(self).tasks@
                    },
                    None => old(self).tasks@,
                }
                &&& final(self).parent_list == old(self).parent_list
                &&& final(self).current_provider == old(self).current_provider
                &&& final(self).loading == old(self).loading
            },
            !accepted(outcome) ==> *final(self) == *old(self),
            r.title@ == outcome_text(outcome, "Task updated."@, "Failed to update task."@),
    {
        match outcome {
            Ok(ack) => {
                if ack.successful {
                    if let Some(i) = index {
                        if self.shows_starred() && i < self.tasks.len() {
                            self.tasks.remove(i);
                        }
                    }
                    toast_str("Task updated.")
                } else {
                    toast_str("Failed to update task.")
                }
            },
            Err(e) => toast(e),
        }
    }

    /// The selected list is the starred filter.
    pub fn shows_starred(&self) -> (r: bool)
        ensures
            r == is_starred(self.parent_list),
    {
        match &self.parent_list {
            Some(l) => {
                let starred = String::from_str("starred");
                l.provider == starred
            },
            None => false,
        }
    }

    /// Selects `list` and starts collecting its tasks under a new selection token,
    /// which it returns; a selection still in progress is dropped, and messages of its
    /// stream are ignored from now on. The tasks on show stay until the new ones are
    /// complete.
    pub fn begin_task_list(&mut self, list: List) -> (r: u64)
        ensures
            final(self).parent_list == Some(list),
            final(self).pending() == Some(Seq::<Task>::empty()),
            final(self).tasks == old(self).tasks,
            final(self).current_provider == old(self).current_provider,
            final(self).selection == next_selection(old(self).selection),
            r == final(self).selection,
    {
        self.parent_list = Some(list);
        self.loading = Some(Vec::new());
        self.selection = if self.selection == u64::MAX {
            0
        } else {
            self.selection + 1
        };
        self.selection
    }

    /// Takes in one message of the task stream of the selection `selection`. A message
    /// of a superseded selection changes nothing.
    pub fn receive_task(&mut self, selection: u64, item: Option<Task>)
        ensures
            final(self).pending() == if selection == old(self).selection {
                receive_step(old(self).pending(), item)
            } else {
                old(self).pending()
            },
            final(self).tasks == old(self).tasks,
            final(self).parent_list == old(self).parent_list,
            final(self).current_provider == old(self).current_provider,
            final(self).selection == old(self).selection,
    {
        if selection == self.selection {
            if let Some(task) = item {
                if let Some(v) = &mut self.loading {
                    v.push(task);
                }
            }
        }
    }

    /// Ends the selection `selection`. When the stream ran to its end the collected
    /// tasks replace those on show; when it failed or timed out, the tasks on show stay
    /// and the failure is reported. The end of a superseded selection changes nothing.
    pub fn finish_task_list(&mut self, selection: u64, outcome: Result<(), String>) -> (r: Option<Toast>)
        ensures
            selection != old(self).selection ==> *final(self) == *old(self) && r.is_none(),
            selection == old(self).selection ==> {
                &&& final(self).pending().is_none()
                &&& final(self).parent_list == old(self).parent_list
                &&& final(self).current_provider == old(self).current_provider
                &&& final(self).selection == old(self).selection
                &&& match (outcome, old(self).pending()) {
                    (Ok(_), Some(s)) => final(self).tasks@ == s && r.is_none(),
                    (Ok(_), None) => final(self).tasks == old(self).tasks && r.is_none(),
                    (Err(e), _) => {
                        &&& final(self).tasks == old(self).tasks
                        &&& r is Some
                        &&& r->Some_0.title@ == e@
                        &&& r->Some_0.timeout == 1
                    },
                }
            },
    {
        if selection != self.selection {
            return None;
        }
        let loading = self.loading.take();
        match outcome {
            Ok(()) => {
                if let Some(v) = loading {
                    self.tasks = v;
                }
                None
            },
            Err(e) => Some(toast(e)),
        }
    }

    /// Switches to the provider `provider`, with no list selected.
    pub fn set_provider(&mut self, provider: Plugin)
        ensures
            final(self).current_provider == provider,
            final(self).parent_list.is_none(),
            final(self).pending().is_none(),
            final(self).tasks == old(self).tasks,
            final(self).selection == old(self).selection,
    {
        self.current_provider = provider;
        self.parent_list = None;
        self.loading = None;
    }
}

} // verus!
