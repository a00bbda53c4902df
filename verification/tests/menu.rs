use dagster_designer_desktop::events::{on_menu_event, Response};
use dagster_designer_desktop::menu::{
    build_menu, MenuEntry, MenuItem, PageAction, PredefinedItem, Submenu,
};

fn item(id: &str, label: &str, accelerator: Option<&str>) -> MenuEntry {
    MenuEntry::Item(MenuItem {
        id: id.to_string(),
        label: label.to_string(),
        accelerator: accelerator.map(String::from),
    })
}

fn predefined(item: PredefinedItem) -> MenuEntry {
    MenuEntry::Predefined(item)
}

fn action(id: &str, label: &str, accelerator: Option<&str>) -> PageAction {
    PageAction {
        id: id.to_string(),
        label: label.to_string(),
        accelerator: accelerator.map(String::from),
    }
}

fn titles(menus: &[Submenu]) -> Vec<&str> {
    menus.iter().map(|m| m.title.as_str()).collect()
}

fn items(menus: &[Submenu]) -> Vec<&MenuItem> {
    let mut found = Vec::new();
    for menu in menus {
        for entry in &menu.entries {
            if let MenuEntry::Item(item) = entry {
                found.push(item);
            }
        }
    }
    found
}

#[test]
fn the_menus_stand_in_order() {
    assert_eq!(
        titles(&build_menu(None)),
        vec!["Dagster Designer", "Edit", "View", "Project", "Actions", "Window"]
    );
}

#[test]
fn the_app_menu() {
    assert_eq!(
        build_menu(None)[0].entries,
        vec![
            predefined(PredefinedItem::About),
            MenuEntry::Separator,
            item("app:preferences", "Preferences…", Some("CmdOrCtrl+,")),
            MenuEntry::Separator,
            predefined(PredefinedItem::Services),
            MenuEntry::Separator,
            predefined(PredefinedItem::Hide),
            predefined(PredefinedItem::HideOthers),
            predefined(PredefinedItem::ShowAll),
            MenuEntry::Separator,
            item("quit", "Quit Dagster Designer", Some("CmdOrCtrl+Q")),
        ]
    );
}

#[test]
fn the_edit_menu() {
    assert_eq!(
        build_menu(None)[1].entries,
        vec![
            predefined(PredefinedItem::Undo),
            predefined(PredefinedItem::Redo),
            MenuEntry::Separator,
            predefined(PredefinedItem::Cut),
            predefined(PredefinedItem::Copy),
            predefined(PredefinedItem::Paste),
            predefined(PredefinedItem::SelectAll),
        ]
    );
}

#[test]
fn the_view_menu() {
    assert_eq!(
        build_menu(None)[2].entries,
        vec![
            item("view:assets", "Assets", Some("CmdOrCtrl+1")),
            item("view:ingestions", "Ingestions", Some("CmdOrCtrl+2")),
            item("view:dbt", "dbt", Some("CmdOrCtrl+3")),
            item("view:monitors", "Monitors", Some("CmdOrCtrl+4")),
            item("view:alerts", "Alerts", Some("CmdOrCtrl+5")),
            item("view:runs", "Runs", Some("CmdOrCtrl+6")),
            item("view:pipelines", "Pipelines", Some("CmdOrCtrl+7")),
            item("view:primitives", "Automation", Some("CmdOrCtrl+8")),
            item("view:library", "Library", Some("CmdOrCtrl+9")),
            item("view:code", "Code", None),
            item("view:resources", "Resources", None),
        ]
    );
}

#[test]
fn the_project_menu() {
    assert_eq!(
        build_menu(None)[3].entries,
        vec![
            item("project:new", "New Project…", Some("CmdOrCtrl+N")),
            item("project:open", "Open Project…", Some("CmdOrCtrl+O")),
            MenuEntry::Separator,
            item("project:import", "Import Project…", None),
            item("project:import-dbt-cloud", "Import from dbt Cloud…", None),
            item("project:open-dagster-plus", "Open Dagster+ Project…", None),
            MenuEntry::Separator,
            item("project:save", "Save", Some("CmdOrCtrl+S")),
        ]
    );
}

#[test]
fn the_actions_menu() {
    assert_eq!(
        build_menu(None)[4].entries,
        vec![
            item("actions:materialize-all", "Materialize All Assets", None),
            item("actions:open-launchpad", "Open Launchpad", None),
            item("actions:launch-job", "Launch Job…", None),
            MenuEntry::Separator,
            item("actions:regenerate-lineage", "Regenerate Lineage", None),
            item("actions:discover-components", "Discover Components", None),
            item("actions:validate", "Validate Project", None),
            MenuEntry::Separator,
            item("actions:dockerfile", "Generate Dockerfile", None),
            item("actions:github-actions", "Generate GitHub Actions", None),
            MenuEntry::Separator,
            item("actions:preview-code", "Preview Code", None),
            item("actions:export", "Export Project…", None),
        ]
    );
}

#[test]
fn the_window_menu() {
    assert_eq!(
        build_menu(None)[5].entries,
        vec![
            predefined(PredefinedItem::Minimize),
            predefined(PredefinedItem::Maximize),
            MenuEntry::Separator,
            predefined(PredefinedItem::CloseWindow),
        ]
    );
}

#[test]
fn a_page_adds_its_actions_before_window() {
    let actions = [
        action("refresh", "Refresh", Some("CmdOrCtrl+R")),
        action("new", "New Monitor", None),
    ];
    let menus = build_menu(Some(("Monitors", &actions)));
    assert_eq!(
        titles(&menus),
        vec!["Dagster Designer", "Edit", "View", "Project", "Actions", "Monitors", "Window"]
    );
    assert_eq!(
        menus[5].entries,
        vec![
            item("page:Monitors:refresh", "Refresh", Some("CmdOrCtrl+R")),
            item("page:Monitors:new", "New Monitor", None),
        ]
    );
    assert_eq!(menus[..5], build_menu(None)[..5]);
    assert_eq!(menus[6], build_menu(None)[5]);
}

#[test]
fn a_page_without_actions_adds_nothing() {
    assert_eq!(build_menu(Some(("Monitors", &[]))), build_menu(None));
}

#[test]
fn pages_with_the_same_short_id_do_not_collide() {
    let first = build_menu(Some(("Monitors", &[action("refresh", "Refresh", None)])));
    let second = build_menu(Some(("Alerts", &[action("refresh", "Refresh", None)])));
    assert_eq!(first[5].entries, vec![item("page:Monitors:refresh", "Refresh", None)]);
    assert_eq!(second[5].entries, vec![item("page:Alerts:refresh", "Refresh", None)]);
}

#[test]
fn no_two_items_share_an_id() {
    let actions = [action("quit", "Quit", None), action("new", "New", None)];
    let menus = build_menu(Some(("project", &actions)));
    let all = items(&menus);
    assert_eq!(all.len(), 31);
    for (i, a) in all.iter().enumerate() {
        for b in &all[i + 1..] {
            assert_ne!(a.id, b.id);
        }
    }
}

#[test]
fn no_two_fixed_items_share_an_accelerator() {
    let menus = build_menu(None);
    let keys: Vec<&String> =
        items(&menus).iter().filter_map(|i| i.accelerator.as_ref()).collect();
    assert_eq!(keys.len(), 14);
    for (i, a) in keys.iter().enumerate() {
        for b in &keys[i + 1..] {
            assert_ne!(a, b);
        }
    }
}

#[test]
fn every_item_is_answered() {
    let menus = build_menu(Some(("Monitors", &[action("quit", "Quit", None)])));
    for item in items(&menus) {
        let expected = if item.id == "quit" {
            Response::Quit { exit_code: 0 }
        } else {
            Response::Emit { event: "menu-action".to_string(), payload: item.id.clone() }
        };
        assert_eq!(on_menu_event(&item.id), expected);
    }
}
