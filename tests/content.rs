use done::content::{connect_failed, ContentInput, ContentModel, ContentStep, IndexError};
use done::model::{Ack, List, Plugin, Task};
use done::registry::{ConnectError, PluginRegistry};

fn task(id: &str, list: &str, title: &str) -> Task {
    Task::new(id.to_string(), list.to_string(), title.to_string())
}

fn local() -> Plugin {
    Plugin::new("local".to_string(), "Local".to_string(), true)
}

fn ok() -> Result<Ack, String> {
    Ok(Ack { successful: true, message: "done".to_string() })
}

fn refused(message: &str) -> Result<Ack, String> {
    Ok(Ack { successful: false, message: message.to_string() })
}

fn view_of(list: List, tasks: Vec<Task>) -> ContentModel {
    let mut view = ContentModel::new(local());
    let token = view.begin_task_list(list);
    for t in tasks {
        view.receive_task(token, Some(t));
    }
    assert!(view.finish_task_list(token, Ok(())).is_none());
    view
}

fn l1(provider: &str) -> List {
    List::new("L1".to_string(), "First".to_string(), provider.to_string())
}

#[test]
fn add_task_accepted_appends_the_task() {
    let mut view = view_of(l1("local"), vec![task("T1", "L1", "one")]);
    let toast = view.add_task(task("T2", "L1", "two"), ok());
    assert_eq!(toast.title, "Task added");
    assert_eq!(toast.timeout, 1);
    assert_eq!(view.tasks.len(), 2);
    assert_eq!(view.tasks[1], task("T2", "L1", "two"));
}

#[test]
fn add_task_refused_keeps_the_view() {
    let mut view = view_of(l1("local"), vec![task("T1", "L1", "one")]);
    let toast = view.add_task(task("T2", "L1", "two"), refused("no room"));
    assert_eq!(toast.title, "no room");
    assert_eq!(view.tasks, vec![task("T1", "L1", "one")]);
}

#[test]
fn add_task_transport_error_keeps_the_view() {
    let mut view = view_of(l1("local"), vec![]);
    let toast = view.add_task(task("T2", "L1", "two"), Err("connection reset".to_string()));
    assert_eq!(toast.title, "connection reset");
    assert!(view.tasks.is_empty());
}

#[test]
fn remove_task_accepted_drops_the_task() {
    let mut view = view_of(l1("local"), vec![task("T1", "L1", "one"), task("T2", "L1", "two")]);
    assert_eq!(view.task_id_at(0), Ok("T1".to_string()));
    let toast = view.remove_task(0, ok()).unwrap();
    assert_eq!(toast.title, "Task removed.");
    assert_eq!(view.tasks, vec![task("T2", "L1", "two")]);
}

#[test]
fn remove_task_refused_keeps_the_view() {
    let mut view = view_of(l1("local"), vec![task("T1", "L1", "one")]);
    let toast = view.remove_task(0, refused("locked")).unwrap();
    assert_eq!(toast.title, "Failed to remove task.");
    assert_eq!(view.tasks, vec![task("T1", "L1", "one")]);
    let toast = view.remove_task(0, Err("timeout".to_string())).unwrap();
    assert_eq!(toast.title, "timeout");
    assert_eq!(view.tasks.len(), 1);
}

#[test]
fn remove_task_past_the_end_is_an_index_error() {
    let mut view = view_of(l1("local"), vec![task("T1", "L1", "one")]);
    assert_eq!(view.remove_task(1, ok()), Err(IndexError { index: 1, len: 1 }));
    assert_eq!(view.remove_task(7, ok()), Err(IndexError { index: 7, len: 1 }));
    assert_eq!(view.task_id_at(1), Err(IndexError { index: 1, len: 1 }));
    assert_eq!(view.tasks, vec![task("T1", "L1", "one")]);
}

#[test]
fn update_on_starred_list_drops_the_task_whatever_it_holds() {
    let mut view = view_of(l1("starred"), vec![task("T1", "L1", "one"), task("T2", "L1", "two")]);
    let mut changed = task("T1", "L1", "one, renamed");
    changed.favorite = true;
    let toast = view.update_task(Some(0), ok());
    assert_eq!(toast.title, "Task updated.");
    assert_eq!(view.tasks, vec![task("T2", "L1", "two")]);
    assert!(changed.favorite);
}

#[test]
fn update_on_stored_list_keeps_the_task() {
    let mut view = view_of(l1("local"), vec![task("T1", "L1", "one"), task("T2", "L1", "two")]);
    let toast = view.update_task(Some(0), ok());
    assert_eq!(toast.title, "Task updated.");
    assert_eq!(view.tasks.len(), 2);
}

#[test]
fn update_refused_keeps_the_view() {
    let mut view = view_of(l1("starred"), vec![task("T1", "L1", "one")]);
    let toast = view.update_task(Some(0), refused("nope"));
    assert_eq!(toast.title, "Failed to update task.");
    assert_eq!(view.tasks.len(), 1);
    let toast = view.update_task(Some(0), Err("broken pipe".to_string()));
    assert_eq!(toast.title, "broken pipe");
    assert_eq!(view.tasks.len(), 1);
}

#[test]
fn selection_shows_the_delivered_tasks_in_order() {
    let mut view = view_of(l1("local"), vec![task("OLD", "L0", "old")]);
    let token = view.begin_task_list(List::new("L2".to_string(), "Second".to_string(), "local".to_string()));
    assert_eq!(view.tasks.len(), 1);
    view.receive_task(token, Some(task("B", "L2", "b")));
    view.receive_task(token, None);
    view.receive_task(token, Some(task("A", "L2", "a")));
    view.receive_task(token, Some(task("C", "L2", "c")));
    assert!(view.finish_task_list(token, Ok(())).is_none());
    let ids: Vec<&str> = view.tasks.iter().map(|t| t.id.as_str()).collect();
    assert_eq!(ids, vec!["B", "A", "C"]);
    assert!(view.loading.is_none());
    assert_eq!(view.parent_list.as_ref().unwrap().id, "L2");
}

#[test]
fn failed_selection_keeps_the_tasks_on_show() {
    let mut view = view_of(l1("local"), vec![task("T1", "L1", "one")]);
    let token = view.begin_task_list(List::new("L2".to_string(), "Second".to_string(), "local".to_string()));
    view.receive_task(token, Some(task("X", "L2", "x")));
    let toast = view.finish_task_list(token, Err("stream ended early".to_string())).unwrap();
    assert_eq!(toast.title, "stream ended early");
    assert_eq!(view.tasks, vec![task("T1", "L1", "one")]);
}

#[test]
fn new_selection_supersedes_the_one_in_progress() {
    let mut view = ContentModel::new(local());
    let first = view.begin_task_list(l1("local"));
    view.receive_task(first, Some(task("T1", "L1", "one")));
    let second = view.begin_task_list(List::new("L2".to_string(), "Second".to_string(), "local".to_string()));
    assert_ne!(first, second);
    view.receive_task(first, Some(task("T2", "L1", "stale")));
    view.receive_task(second, Some(task("T9", "L2", "nine")));
    assert!(view.finish_task_list(first, Err("cancelled".to_string())).is_none());
    assert!(view.loading.is_some());
    view.finish_task_list(second, Ok(()));
    assert_eq!(view.tasks, vec![task("T9", "L2", "nine")]);
}

#[test]
fn task_commands_without_a_list_go_nowhere() {
    let view = ContentModel::new(local());
    let registry = PluginRegistry::new(vec![local()]);
    assert!(matches!(view.provider_for_tasks(&registry), Err(None)));
}

#[test]
fn task_commands_resolve_the_list_provider() {
    let view = view_of(l1("local"), vec![]);
    let registry = PluginRegistry::new(vec![local()]);
    assert_eq!(view.provider_for_tasks(&registry).unwrap(), local());
}

#[test]
fn unknown_list_provider_is_reported() {
    let view = view_of(l1("nowhere"), vec![]);
    let registry = PluginRegistry::new(vec![local()]);
    match view.provider_for_tasks(&registry) {
        Err(Some(toast)) => assert_eq!(toast.title, "Provider not found"),
        other => panic!("unexpected {:?}", other),
    }
}

#[test]
fn unreachable_provider_is_reported() {
    let toast = connect_failed(&"remote".to_string());
    assert_eq!(toast.title, "Failed to connect to remote service.");
    assert_eq!(toast.timeout, 1);
}

#[test]
fn set_provider_clears_the_selection() {
    let mut view = view_of(l1("local"), vec![task("T1", "L1", "one")]);
    let other = Plugin::new("remote".to_string(), "Remote".to_string(), true);
    view.set_provider(other.clone());
    assert_eq!(view.current_provider, other);
    assert!(view.parent_list.is_none());
}

#[test]
fn connect_to_unknown_provider_is_not_found() {
    let registry = PluginRegistry::new(vec![local()]);
    let err = registry.lookup(&"unknown-provider".to_string()).unwrap_err();
    assert_eq!(err, ConnectError::NotFound);
    assert!(err.message().contains("not found"));
    assert!(err.toast().title.contains("not found"));
    assert_eq!(registry.plugins, vec![local()]);
}

#[test]
fn lookup_finds_the_first_provider_with_the_id() {
    let registry = PluginRegistry::new(vec![
        Plugin::new("remote".to_string(), "Remote".to_string(), false),
        Plugin::new("local".to_string(), "First".to_string(), true),
        Plugin::new("local".to_string(), "Second".to_string(), true),
    ]);
    assert_eq!(registry.position(&"local".to_string()), Some(1));
    assert_eq!(registry.lookup(&"local".to_string()).unwrap().name, "First");
    assert_eq!(registry.list().len(), 3);
}

#[test]
fn unreachable_error_reports_its_reason() {
    let err = ConnectError::Unreachable("refused".to_string());
    assert_eq!(err.message(), "refused");
}

#[test]
fn commands_go_to_the_list_provider() {
    let registry = PluginRegistry::new(vec![local()]);
    let mut view = view_of(l1("local"), vec![task("T1", "L1", "one")]);
    match view.update(&registry, ContentInput::AddTask(task("T2", "L1", "two"))) {
        ContentStep::CreateTask { plugin, task: t } => {
            assert_eq!(plugin, local());
            assert_eq!(t.id, "T2");
        },
        other => panic!("unexpected {:?}", other),
    }
    match view.update(&registry, ContentInput::RemoveTask(0)) {
        ContentStep::DeleteTask { plugin, index, task_id } => {
            assert_eq!(plugin, local());
            assert_eq!(index, 0);
            assert_eq!(task_id, "T1");
        },
        other => panic!("unexpected {:?}", other),
    }
    match view.update(&registry, ContentInput::UpdateTask(Some(0), task("T1", "L1", "uno"))) {
        ContentStep::UpdateTask { index, task: t, .. } => {
            assert_eq!(index, Some(0));
            assert_eq!(t.title, "uno");
        },
        other => panic!("unexpected {:?}", other),
    }
    assert_eq!(view.tasks.len(), 1);
}

#[test]
fn removing_past_the_end_is_reported_before_any_call() {
    let registry = PluginRegistry::new(vec![local()]);
    let mut view = view_of(l1("local"), vec![task("T1", "L1", "one")]);
    match view.update(&registry, ContentInput::RemoveTask(3)) {
        ContentStep::OutOfRange(e) => {
            assert_eq!(e, IndexError { index: 3, len: 1 });
            assert_eq!(e.toast().title, "No task at that position.");
        },
        other => panic!("unexpected {:?}", other),
    }
}

#[test]
fn commands_with_an_unknown_provider_only_report() {
    let registry = PluginRegistry::new(vec![local()]);
    let mut view = view_of(l1("gone"), vec![task("T1", "L1", "one")]);
    match view.update(&registry, ContentInput::AddTask(task("T2", "L1", "two"))) {
        ContentStep::Notify(t) => assert!(t.title.contains("not found")),
        other => panic!("unexpected {:?}", other),
    }
    assert_eq!(view.tasks.len(), 1);
    let mut empty = ContentModel::new(local());
    assert!(matches!(empty.update(&registry, ContentInput::RemoveTask(0)), ContentStep::Nothing));
}

#[test]
fn selecting_a_list_starts_its_stream() {
    let registry = PluginRegistry::new(vec![local()]);
    let mut view = view_of(l1("local"), vec![task("T1", "L1", "one")]);
    let l2 = List::new("L2".to_string(), "Second".to_string(), "local".to_string());
    match view.update(&registry, ContentInput::SetTaskList(l2.clone())) {
        ContentStep::StreamTasks { plugin, list_id, selection } => {
            assert_eq!(plugin, local());
            assert_eq!(list_id, "L2");
            assert_eq!(selection, view.selection);
        },
        other => panic!("unexpected {:?}", other),
    }
    assert_eq!(view.parent_list, Some(l2));
    assert_eq!(view.tasks.len(), 1);
    let unknown = List::new("L3".to_string(), "Third".to_string(), "nowhere".to_string());
    match view.update(&registry, ContentInput::SetTaskList(unknown)) {
        ContentStep::Notify(t) => assert_eq!(t.title, "Provider not found"),
        other => panic!("unexpected {:?}", other),
    }
    assert_eq!(view.parent_list.as_ref().unwrap().id, "L2");
    assert!(view.loading.is_some());
    assert!(matches!(
        view.update(&registry, ContentInput::SetProvider(local())),
        ContentStep::Nothing
    ));
    assert!(view.parent_list.is_none());
}
