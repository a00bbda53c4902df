use dagster_designer_desktop::menu::{build_menu, PageAction};
use dagster_designer_desktop::page_menu::{set_page_menu, MenuChange, MenuRequest};

fn refresh() -> PageAction {
    PageAction { id: "refresh".to_string(), label: "Refresh".to_string(), accelerator: None }
}

fn answer(result: Result<(), &str>) -> MenuRequest {
    MenuRequest::Answer { result: result.map_err(String::from) }
}

#[test]
fn a_published_page_is_shown() {
    let change = set_page_menu(Some("Runs".to_string()), vec![refresh()]);
    let menus = build_menu(Some(("Runs", &[refresh()])));
    assert_eq!(menus.len(), 7);
    assert_eq!(change.request(), MenuRequest::Build { menus });
    let change = change.reply(Ok(()));
    assert_eq!(change.request(), MenuRequest::Install);
    assert_eq!(change.reply(Ok(())).request(), answer(Ok(())));
}

#[test]
fn without_a_title_there_is_no_page() {
    let change = set_page_menu(None, vec![refresh()]);
    assert_eq!(change.request(), MenuRequest::Build { menus: build_menu(None) });
}

#[test]
fn a_title_alone_adds_nothing() {
    let change = set_page_menu(Some("Runs".to_string()), vec![]);
    assert_eq!(change.request(), MenuRequest::Build { menus: build_menu(None) });
}

#[test]
fn a_menu_that_cannot_be_built_is_not_installed() {
    let change = set_page_menu(None, vec![]).reply(Err("bad accelerator".to_string()));
    assert_eq!(change.request(), answer(Err("bad accelerator")));
    assert_eq!(change.reply(Ok(())).request(), answer(Err("bad accelerator")));
}

#[test]
fn a_menu_that_cannot_be_installed_is_reported() {
    assert_eq!(MenuChange::Install.reply(Err("no".to_string())).request(), answer(Err("no")));
}
