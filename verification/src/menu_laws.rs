//! Laws of the menu bar as a whole.

use crate::events;
use crate::menu;
use crate::menu::{EntryView, ItemView, MenuEntry, PageAction, Submenu};
use crate::text;
use vstd::prelude::*;

verus! {

/// What is known of every item of the fixed menus: where it stands, read back from its id.
spec fn slot(id: Seq<char>) -> (int, int) {
    if id[0] == 'q' {
        (0, 10)
    } else if id[0] == 'v' {
        (
            2,
            if id[5] == 'a' {
                if id[6] == 's' { 0int } else { 4 }
            } else if id[5] == 'i' {
                1
            } else if id[5] == 'd' {
                2
            } else if id[5] == 'm' {
                3
            } else if id[5] == 'r' {
                if id.len() == 9 { 5 } else { 10 }
            } else if id[5] == 'p' {
                if id.len() == 14 { 6 } else { 7 }
            } else if id[5] == 'l' {
                8
            } else {
                9
            },
        )
    } else if id[0] == 'p' {
        (
            3,
            if id[8] == 'n' {
                0int
            } else if id[8] == 's' {
                7
            } else if id.len() == 12 {
                1
            } else if id.len() == 14 {
                3
            } else if id.len() == 24 {
                4
            } else {
                5
            },
        )
    } else if id[1] == 'p' {
        (0, 2)
    } else {
        (
            4,
            if id[8] == 'm' {
                0int
            } else if id[8] == 'o' {
                1
            } else if id[8] == 'l' {
                2
            } else if id[8] == 'r' {
                4
            } else if id[8] == 'd' {
                if id.len() == 27 { 5 } else { 8 }
            } else if id[8] == 'v' {
                6
            } else if id[8] == 'g' {
                9
            } else if id[8] == 'p' {
                11
            } else {
                12
            },
        )
    }
}

/// What is proved of an item of the fixed menus at a given place.
spec fn placed(entry: EntryView, menu: int, row: int) -> bool {
    entry matches EntryView::Item(item) ==> {
        &&& item.id.len() >= 2
        &&& !(item.id[0] == 'p' && item.id[1] == 'a')
        &&& slot(item.id) == (menu, row)
        &&& item.id == "quit"@ || events::owned_by_frontend(item.id)
    }
}

proof fn lemma_app_rows(row: int)
    requires
        0 <= row < menu::app_menu().entries.len(),
    ensures
        placed(menu::app_menu().entries[row], 0, row),
{
    reveal_strlit("app:");
    reveal_strlit("quit");
    reveal_strlit("app:preferences");
    assert("app:preferences"@.take(4) =~= "app:"@);
}

proof fn lemma_view_rows(row: int)
    requires
        0 <= row < menu::view_menu().entries.len(),
    ensures
        menu::view_menu().entries[row] is Item,
        placed(menu::view_menu().entries[row], 2, row),
{
    reveal_strlit("view:");
    reveal_strlit("assets");
    reveal_strlit("ingestions");
    reveal_strlit("dbt");
    reveal_strlit("monitors");
    reveal_strlit("alerts");
    reveal_strlit("runs");
    reveal_strlit("pipelines");
    reveal_strlit("primitives");
    reveal_strlit("library");
    reveal_strlit("code");
    reveal_strlit("resources");
    let id = "view:"@ + menu::view_sections()[row].0;
    assert(id.take(5) =~= "view:"@);
    assert(id[5] == menu::view_sections()[row].0[0]);
    assert(id[6] == menu::view_sections()[row].0[1]);
}

proof fn lemma_project_rows(row: int)
    requires
        0 <= row < menu::project_menu().entries.len(),
    ensures
        placed(menu::project_menu().entries[row], 3, row),
{
    reveal_strlit("project:");
    reveal_strlit("project:new");
    reveal_strlit("project:open");
    reveal_strlit("project:import");
    reveal_strlit("project:import-dbt-cloud");
    reveal_strlit("project:open-dagster-plus");
    reveal_strlit("project:save");
    assert("project:new"@.take(8) =~= "project:"@);
    assert("project:open"@.take(8) =~= "project:"@);
    assert("project:import"@.take(8) =~= "project:"@);
    assert("project:import-dbt-cloud"@.take(8) =~= "project:"@);
    assert("project:open-dagster-plus"@.take(8) =~= "project:"@);
    assert("project:save"@.take(8) =~= "project:"@);
}

proof fn lemma_actions_rows(row: int)
    requires
        0 <= row < menu::actions_menu().entries.len(),
    ensures
        placed(menu::actions_menu().entries[row], 4, row),
{
    reveal_strlit("actions:");
    reveal_strlit("actions:materialize-all");
    reveal_strlit("actions:open-launchpad");
    reveal_strlit("actions:launch-job");
    reveal_strlit("actions:regenerate-lineage");
    reveal_strlit("actions:discover-components");
    reveal_strlit("actions:validate");
    reveal_strlit("actions:dockerfile");
    reveal_strlit("actions:github-actions");
    reveal_strlit("actions:preview-code");
    reveal_strlit("actions:export");
    assert("actions:materialize-all"@.take(8) =~= "actions:"@);
    assert("actions:open-launchpad"@.take(8) =~= "actions:"@);
    assert("actions:launch-job"@.take(8) =~= "actions:"@);
    assert("actions:regenerate-lineage"@.take(8) =~= "actions:"@);
    assert("actions:discover-components"@.take(8) =~= "actions:"@);
    assert("actions:validate"@.take(8) =~= "actions:"@);
    assert("actions:dockerfile"@.take(8) =~= "actions:"@);
    assert("actions:github-actions"@.take(8) =~= "actions:"@);
    assert("actions:preview-code"@.take(8) =~= "actions:"@);
    assert("actions:export"@.take(8) =~= "actions:"@);
}

/// The row at a place in the menu bar.
pub open spec fn row_at(
    page: Option<(Seq<char>, Seq<ItemView>)>,
    menu: int,
    row: int,
) -> EntryView {
    menu::menu_bar(page)[menu].entries[row]
}

/// Whether there is an item at a place in the menu bar.
pub open spec fn item_at(
    page: Option<(Seq<char>, Seq<ItemView>)>,
    menu: int,
    row: int,
) -> bool {
    &&& 0 <= menu < menu::menu_bar(page).len()
    &&& 0 <= row < menu::menu_bar(page)[menu].entries.len()
    &&& row_at(page, menu, row) is Item
}

/// Whether the page's actions have ids of their own.
pub open spec fn distinct_actions(page: Option<(Seq<char>, Seq<ItemView>)>) -> bool {
    page matches Some((title, actions)) ==> forall|i: int, j: int|
        0 <= i < j < actions.len() ==> actions[i].id != actions[j].id
}

/// Whether a place in the menu bar belongs to the page's own menu.
pub open spec fn in_page_menu(page: Option<(Seq<char>, Seq<ItemView>)>, menu: int) -> bool {
    menu == 5 && menu::page_menus(page).len() == 1
}

proof fn lemma_fixed_rows(page: Option<(Seq<char>, Seq<ItemView>)>, menu: int, row: int)
    requires
        item_at(page, menu, row),
        !in_page_menu(page, menu),
    ensures
        placed(row_at(page, menu, row), menu, row),
{
    if menu == 0 {
        lemma_app_rows(row);
    } else if menu == 1 {
        assert(menu::menu_bar(page)[1] == menu::edit_menu());
    } else if menu == 2 {
        lemma_view_rows(row);
    } else if menu == 3 {
        lemma_project_rows(row);
    } else if menu == 4 {
        lemma_actions_rows(row);
    } else {
        assert(menu::menu_bar(page)[menu] == menu::window_menu());
    }
}

proof fn lemma_page_item_id(title: Seq<char>, id: Seq<char>)
    ensures
        "page:"@.is_prefix_of(menu::page_item_id(title, id)),
        menu::page_item_id(title, id).len() == 6 + title.len() + id.len(),
        menu::page_item_id(title, id)[0] == 'p',
        menu::page_item_id(title, id)[1] == 'a',
        menu::page_item_id(title, id).subrange(5, 5int + title.len()) == title,
        menu::page_item_id(title, id)[5int + title.len()] == ':',
        menu::page_item_id(title, id).skip(6int + title.len()) == id,
{
    reveal_strlit("page:");
    reveal_strlit(":");
    let full = menu::page_item_id(title, id);
    assert(full.take(5) =~= "page:"@);
    assert(full.subrange(5, 5int + title.len()) =~= title);
    assert(full.skip(6int + title.len()) =~= id);
}

/// Two pages that use the same short id never collide in the menu.
pub proof fn law_pages_do_not_collide(title: Seq<char>, other_title: Seq<char>, id: Seq<char>)
    requires
        title != other_title,
    ensures
        menu::page_item_id(title, id) != menu::page_item_id(other_title, id),
{
    lemma_page_item_id(title, id);
    lemma_page_item_id(other_title, id);
}

/// Two actions of one page that have different short ids never collide in the menu.
pub proof fn law_actions_do_not_collide(title: Seq<char>, id: Seq<char>, other_id: Seq<char>)
    requires
        id != other_id,
    ensures
        menu::page_item_id(title, id) != menu::page_item_id(title, other_id),
{
    lemma_page_item_id(title, id);
    lemma_page_item_id(title, other_id);
}

/// As long as page titles hold no colon, an item's id tells both its page and its action.
pub proof fn law_page_item_id_is_unique(
    title: Seq<char>,
    id: Seq<char>,
    other_title: Seq<char>,
    other_id: Seq<char>,
)
    requires
        !title.contains(':'),
        !other_title.contains(':'),
        menu::page_item_id(title, id) == menu::page_item_id(other_title, other_id),
    ensures
        title == other_title,
        id == other_id,
{
    let full = menu::page_item_id(title, id);
    lemma_page_item_id(title, id);
    lemma_page_item_id(other_title, other_id);
    if title.len() < other_title.len() {
        assert(other_title[title.len() as int] == full[5int + title.len()]);
    } else if other_title.len() < title.len() {
        assert(title[other_title.len() as int] == full[5int + other_title.len()]);
    }
}

/// No item of the menu bar is dead: each one quits or reaches the frontend under its own id, and
/// an item of a page always reaches the frontend.
pub proof fn law_every_item_is_answered(
    page: Option<(Seq<char>, Seq<ItemView>)>,
    menu: int,
    row: int,
)
    requires
        item_at(page, menu, row),
    ensures
        ({
            let id = row_at(page, menu, row)->Item_0.id;
            let forwarded = events::ResponseView::Emit { event: "menu-action"@, payload: id };
            &&& events::menu_response(id) == forwarded || id == "quit"@
            &&& in_page_menu(page, menu) ==> events::menu_response(id) == forwarded
        }),
{
    if in_page_menu(page, menu) {
        let (title, actions) = page->0;
        lemma_page_item_id(title, actions[row].id);
        reveal_strlit("quit");
    } else {
        lemma_fixed_rows(page, menu, row);
    }
}

/// No two items of the menu bar share an id, as long as no two actions of the page do.
pub proof fn law_item_ids_are_distinct(
    page: Option<(Seq<char>, Seq<ItemView>)>,
    menu: int,
    row: int,
    other_menu: int,
    other_row: int,
)
    requires
        distinct_actions(page),
        item_at(page, menu, row),
        item_at(page, other_menu, other_row),
        row_at(page, menu, row)->Item_0.id == row_at(page, other_menu, other_row)->Item_0.id,
    ensures
        menu == other_menu,
        row == other_row,
{
    let own = in_page_menu(page, menu);
    let other_own = in_page_menu(page, other_menu);
    if own {
        lemma_page_item_id((page->0).0, (page->0).1[row].id);
    } else {
        lemma_fixed_rows(page, menu, row);
    }
    if other_own {
        lemma_page_item_id((page->0).0, (page->0).1[other_row].id);
    } else {
        lemma_fixed_rows(page, other_menu, other_row);
    }
    if own && other_own && row != other_row {
        law_actions_do_not_collide(
            (page->0).0,
            (page->0).1[row].id,
            (page->0).1[other_row].id,
        );
    }
}

/// Whether there is a page and it has actions.
pub open spec fn has_actions(page: Option<(Seq<char>, Seq<ItemView>)>) -> bool {
    page matches Some((title, actions)) && actions.len() > 0
}

/// The page's own menu is there exactly where the page has actions. It stands between Actions
/// and Window, holds one row for each action in the page's order, and leaves the rest of the
/// menu bar as it is without a page.
pub proof fn law_page_menu_stands_before_window(page: Option<(Seq<char>, Seq<ItemView>)>)
    ensures
        menu::menu_bar(page).take(5) == menu::menu_bar(None).take(5),
        menu::menu_bar(page)[4] == menu::actions_menu(),
        menu::menu_bar(page).last() == menu::window_menu(),
        has_actions(page) ==> {
            let bar = menu::menu_bar(page);
            let (title, actions) = page->0;
            &&& bar.len() == 7
            &&& bar[5].title == title
            &&& bar[5].entries.len() == actions.len()
            &&& forall|i: int|
                0 <= i < actions.len() ==> #[trigger] bar[5].entries[i] == menu::page_entry(
                    title,
                    actions[i],
                )
        },
        !has_actions(page) ==> menu::menu_bar(page) == menu::menu_bar(None),
{
    assert(menu::menu_bar(page).take(5) =~= menu::leading_menus());
    assert(menu::menu_bar(None).take(5) =~= menu::leading_menus());
}

/// The character that sets an accelerator of the fixed menus apart, and where it stands.
spec fn accelerator_slot(c: char) -> (int, int) {
    if c == ',' {
        (0, 2)
    } else if c == 'Q' {
        (0, 10)
    } else if c == 'N' {
        (3, 0)
    } else if c == 'O' {
        (3, 1)
    } else if c == 'S' {
        (3, 7)
    } else {
        (2, c as int - '1' as int)
    }
}

proof fn lemma_accelerator_slot(menu: int, row: int)
    requires
        item_at(None, menu, row),
        row_at(None, menu, row)->Item_0.accelerator is Some,
    ensures
        accelerator_slot(row_at(None, menu, row)->Item_0.accelerator->0.last()) == (menu, row),
{
    reveal_strlit("CmdOrCtrl+,");
    reveal_strlit("CmdOrCtrl+Q");
    reveal_strlit("CmdOrCtrl+N");
    reveal_strlit("CmdOrCtrl+O");
    reveal_strlit("CmdOrCtrl+S");
    reveal_strlit("CmdOrCtrl+");
    if menu == 2 {
        assert(row < 9);
        assert(text::decimal((row + 1) as nat) =~= seq![text::digit((row + 1) as nat)]);
    } else if menu == 1 {
        assert(menu::menu_bar(None)[1] == menu::edit_menu());
    } else if menu == 5 {
        assert(menu::menu_bar(None)[5] == menu::window_menu());
    }
}

/// No two items outside the page's own menu share an accelerator.
pub proof fn law_accelerators_are_distinct(
    menu: int,
    row: int,
    other_menu: int,
    other_row: int,
)
    requires
        item_at(None, menu, row),
        item_at(None, other_menu, other_row),
        row_at(None, menu, row)->Item_0.accelerator is Some,
        row_at(None, menu, row)->Item_0.accelerator == row_at(
            None,
            other_menu,
            other_row,
        )->Item_0.accelerator,
    ensures
        menu == other_menu,
        row == other_row,
{
    lemma_accelerator_slot(menu, row);
    lemma_accelerator_slot(other_menu, other_row);
}

/// The page's own menu holds one row for each of its actions, in their order: under the page's
/// title and the action's id, with the action's label and the action's accelerator, all of them
/// whole.
pub proof fn law_page_menu_shows_the_actions(title: Seq<char>, actions: Seq<ItemView>, i: int)
    requires
        0 <= i < actions.len(),
    ensures
        ({
            let bar = menu::menu_bar(Some((title, actions)));
            &&& bar.len() == 7
            &&& bar[5].title == title
            &&& bar[5].entries.len() == actions.len()
            &&& bar[5].entries[i] matches EntryView::Item(item)
            &&& item.id == "page:"@ + title + ":"@ + actions[i].id
            &&& item.label == actions[i].label
            &&& item.accelerator == actions[i].accelerator
        }),
{
}

/// What the page shows of an action does not depend on the other actions.
pub proof fn law_actions_are_shown_one_by_one(
    title: Seq<char>,
    before: Seq<ItemView>,
    after: Seq<ItemView>,
)
    requires
        before.len() > 0,
        after.len() > 0,
    ensures
        menu::menu_bar(Some((title, before + after)))[5].entries == menu::menu_bar(
            Some((title, before)),
        )[5].entries + menu::menu_bar(Some((title, after)))[5].entries,
{
    assert(menu::menu_bar(Some((title, before + after)))[5].entries =~= menu::menu_bar(
        Some((title, before)),
    )[5].entries + menu::menu_bar(Some((title, after)))[5].entries);
}

/// A list of menus that shows a page has, row for row, the fields of the page's actions.
pub proof fn law_built_page_menu_shows_the_actions(
    menus: Seq<Submenu>,
    title: &str,
    actions: &[PageAction],
    i: int,
)
    requires
        menu::submenu_views(menus) == menu::menu_bar(menu::page_view(Some((title, actions)))),
        0 <= i < actions@.len(),
    ensures
        menus.len() == 7,
        menus[5].title@ == title@,
        menus[5].entries@.len() == actions@.len(),
        menus[5].entries@[i] matches MenuEntry::Item(item) && {
            &&& item.id@ == "page:"@ + title@ + ":"@ + actions@[i].id@
            &&& item.label@ == actions@[i].label@
            &&& item.accelerator is Some <==> actions@[i].accelerator is Some
            &&& item.accelerator is Some ==> item.accelerator->0@ == actions@[i].accelerator->0@
        },
{
    let views = menu::submenu_views(menus);
    let shown = menu::action_views(actions@);
    assert(shown.len() == actions@.len());
    assert(shown[i] == actions@[i]@);
    law_page_menu_shows_the_actions(title@, shown, i);
    assert(views.len() == menus.len());
    assert(views[5] == menus[5]@);
    assert(menus[5]@.entries[i] == menus[5].entries@[i]@);
}

/// A list of menus without a page, or with a page that has no actions, is the one list of six
/// menus that is always there.
pub proof fn law_built_menu_without_actions(menus: Seq<Submenu>, title: &str, actions: &[PageAction])
    requires
        menu::submenu_views(menus) == menu::menu_bar(menu::page_view(Some((title, actions)))),
        actions@.len() == 0,
    ensures
        menu::submenu_views(menus) == menu::menu_bar(menu::page_view(None)),
        menu::menu_bar(menu::page_view(None)) == menu::menu_bar(None),
        menus.len() == 6,
{
    let shown = menu::action_views(actions@);
    assert(shown.len() == 0);
    law_page_menu_stands_before_window(Some((title@, shown)));
    assert(menu::submenu_views(menus).len() == menus.len());
}

} // verus!
