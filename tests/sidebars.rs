use done::model::{Ack, List, Plugin};
use done::registry::PluginRegistry;
use done::services_sidebar::{
    Service, ServicesSidebarInput, ServicesSidebarModel, ServicesSidebarOutput,
};
use done::sidebar::{SidebarInput, SidebarModel, SidebarOutput, SidebarStep, SmartList};

fn plugin(id: &str, running: bool) -> Plugin {
    Plugin::new(id.to_string(), id.to_uppercase(), running)
}

fn sidebar() -> SidebarModel {
    let mut s = SidebarModel::new();
    s.add_provider(plugin("local", true), vec![]);
    s.add_provider(plugin("remote", true), vec![]);
    s
}

fn registry() -> PluginRegistry {
    PluginRegistry::new(vec![plugin("local", true), plugin("remote", true)])
}

#[test]
fn enabling_a_stopped_plugin_changes_nothing() {
    let mut s = sidebar();
    s.update(&registry(), SidebarInput::DisableService(plugin("remote", true)));
    let step = s.update(&registry(), SidebarInput::EnableService(plugin("remote", false)));
    assert!(matches!(step, SidebarStep::Nothing));
    assert!(!s.providers[1].enabled);
}

#[test]
fn enabling_a_running_plugin_shows_it() {
    let mut s = sidebar();
    s.update(&registry(), SidebarInput::DisableService(plugin("remote", true)));
    let step = s.update(&registry(), SidebarInput::EnableService(plugin("remote", true)));
    assert!(matches!(step, SidebarStep::Enabled(1)));
    assert!(s.providers[1].enabled);
    assert!(s.providers[0].enabled);
}

#[test]
fn disabling_reports_upward() {
    let mut s = sidebar();
    let step = s.update(&registry(), SidebarInput::DisableService(plugin("local", true)));
    assert!(matches!(step, SidebarStep::Output(SidebarOutput::DisablePlugin)));
    assert!(!s.providers[0].enabled);
}

#[test]
fn enabling_or_disabling_an_unknown_plugin_is_reported() {
    let mut s = sidebar();
    for message in [
        SidebarInput::DisableService(plugin("ghost", true)),
        SidebarInput::EnableService(plugin("ghost", true)),
    ] {
        match s.update(&registry(), message) {
            SidebarStep::Output(SidebarOutput::Notify(text)) => assert_eq!(text, "Provider not found"),
            other => panic!("unexpected {:?}", other),
        }
    }
    assert!(s.providers.iter().all(|p| p.enabled));
}

#[test]
fn disabling_a_known_provider_without_entry_still_reports() {
    let mut s = SidebarModel::new();
    let step = s.update(&registry(), SidebarInput::DisableService(plugin("local", true)));
    assert!(matches!(step, SidebarStep::Output(SidebarOutput::DisablePlugin)));
    assert!(s.providers.is_empty());
}

#[test]
fn adding_a_list_to_an_unknown_provider_is_reported() {
    let mut s = sidebar();
    let step = s.update(
        &registry(),
        SidebarInput::AddListToProvider(0, "unknown-provider".to_string(), "Chores".to_string()),
    );
    match step {
        SidebarStep::Output(SidebarOutput::Notify(text)) => assert_eq!(text, "Provider not found"),
        other => panic!("unexpected {:?}", other),
    }
    assert!(s.providers[0].lists.is_empty());
}

#[test]
fn adding_a_list_asks_the_provider_then_appends() {
    let mut s = sidebar();
    let step = s.update(
        &registry(),
        SidebarInput::AddListToProvider(1, "remote".to_string(), "Chores".to_string()),
    );
    let (index, name) = match step {
        SidebarStep::CreateList { index, plugin, name } => {
            assert_eq!(plugin.id, "remote");
            (index, name)
        },
        other => panic!("unexpected {:?}", other),
    };
    let list = List::new("L9".to_string(), name, "remote".to_string());
    let out = s.list_created(index, list.clone(), Ok(Ack { successful: true, message: "List added".to_string() }));
    assert!(matches!(out, SidebarOutput::Notify(ref m) if m == "List added"));
    assert_eq!(s.providers[1].lists, vec![list]);
}

#[test]
fn refused_list_is_not_appended() {
    let mut s = sidebar();
    let list = List::new("L9".to_string(), "Chores".to_string(), "local".to_string());
    let out = s.list_created(0, list.clone(), Ok(Ack { successful: false, message: "quota".to_string() }));
    assert!(matches!(out, SidebarOutput::Notify(ref m) if m == "quota"));
    let out = s.list_created(0, list, Err("offline".to_string()));
    assert!(matches!(out, SidebarOutput::Notify(ref m) if m == "offline"));
    assert!(s.providers[0].lists.is_empty());
}

#[test]
fn routing_commands_pass_through() {
    let mut s = sidebar();
    let list = List::new("L1".to_string(), "One".to_string(), "local".to_string());
    assert!(matches!(
        s.update(&registry(), SidebarInput::ListSelected(list.clone())),
        SidebarStep::Output(SidebarOutput::ListSelected(ref l)) if *l == list
    ));
    assert!(matches!(s.update(&registry(), SidebarInput::Forward), SidebarStep::Output(SidebarOutput::Forward)));
    assert!(matches!(
        s.update(&registry(), SidebarInput::Notify("hi".to_string())),
        SidebarStep::Output(SidebarOutput::Notify(ref m)) if m == "hi"
    ));
    assert!(matches!(
        s.update(&registry(), SidebarInput::SelectSmartList(SmartList::Starred)),
        SidebarStep::Output(SidebarOutput::SelectSmartList(SmartList::Starred))
    ));
}

fn services() -> Vec<Service> {
    vec![
        Service { name: "Local".to_string(), available: true },
        Service { name: "Remote".to_string(), available: false },
        Service { name: "Cloud".to_string(), available: true },
    ]
}

#[test]
fn service_picker_shows_available_services() {
    let model = ServicesSidebarModel::init(&services());
    let names: Vec<&str> = model.services.iter().map(|s| s.name.as_str()).collect();
    assert_eq!(names, vec!["Local", "Cloud"]);
    assert_eq!(model.selected, Some(0));
    let empty = ServicesSidebarModel::init(&vec![]);
    assert_eq!(empty.selected, None);
}

#[test]
fn service_picker_reload_and_select() {
    let mut model = ServicesSidebarModel::init(&services());
    let cloud = Service { name: "Cloud".to_string(), available: true };
    let out = model.update(ServicesSidebarInput::ServiceSelected(1, cloud.clone()), &services());
    assert!(matches!(out, ServicesSidebarOutput::ServiceSelected(ref s) if *s == cloud));
    assert_eq!(model.selected, Some(1));
    let mut now = services();
    now[2].available = false;
    let out = model.update(ServicesSidebarInput::ReloadSidebar(now[2].clone()), &now);
    assert!(matches!(out, ServicesSidebarOutput::ServiceDisabled(ref s) if s.name == "Cloud"));
    assert_eq!(model.services.len(), 1);
    assert_eq!(model.selected, None);
}
