//! The menu bar: what it holds, in which order, and under which ids.

use vstd::prelude::*;
use vstd::string::*;

verus! {

/// One action the current page wants reachable from the menu bar.
///
/// `id` is whatever the page wants back when the action is picked; the menu holds it
/// namespaced with the page's title (see [`page_item_id`]).
#[derive(Debug, PartialEq, Eq)]
pub struct PageAction {
    pub id: String,
    pub label: String,
    pub accelerator: Option<String>,
}

/// A menu item that the operating system supplies, with its behaviour and its text.
#[derive(Clone, Copy, Debug, PartialEq, Eq, Structural)]
pub enum PredefinedItem {
    About,
    Services,
    Hide,
    HideOthers,
    ShowAll,
    Undo,
    Redo,
    Cut,
    Copy,
    Paste,
    SelectAll,
    Minimize,
    Maximize,
    CloseWindow,
}

/// A menu item of the application's own.
#[derive(Debug, PartialEq, Eq)]
pub struct MenuItem {
    pub id: String,
    pub label: String,
    pub accelerator: Option<String>,
}

/// One row of a submenu.
#[derive(Debug, PartialEq, Eq)]
pub enum MenuEntry {
    Item(MenuItem),
    Predefined(PredefinedItem),
    Separator,
}

/// One of the menus in the menu bar.
#[derive(Debug, PartialEq, Eq)]
pub struct Submenu {
    pub title: String,
    pub entries: Vec<MenuEntry>,
}

/// What a [`MenuItem`] or a [`PageAction`] says.
pub struct ItemView {
    pub id: Seq<char>,
    pub label: Seq<char>,
    pub accelerator: Option<Seq<char>>,
}

/// What a [`MenuEntry`] says.
pub enum EntryView {
    Item(ItemView),
    Predefined(PredefinedItem),
    Separator,
}

/// What a [`Submenu`] says.
#[verifier::ext_equal]
pub struct SubmenuView {
    pub title: Seq<char>,
    pub entries: Seq<EntryView>,
}

impl View for PageAction {
    type V = ItemView;

    open spec fn view(&self) -> ItemView {
        ItemView {
            id: self.id@,
            label: self.label@,
            accelerator: crate::text::optional_text(self.accelerator),
        }
    }
}

impl View for MenuItem {
    type V = ItemView;

    open spec fn view(&self) -> ItemView {
        ItemView {
            id: self.id@,
            label: self.label@,
            accelerator: crate::text::optional_text(self.accelerator),
        }
    }
}

impl View for MenuEntry {
    type V = EntryView;

    open spec fn view(&self) -> EntryView {
        match *self {
            MenuEntry::Item(item) => EntryView::Item(item@),
            MenuEntry::Predefined(item) => EntryView::Predefined(item),
            MenuEntry::Separator => EntryView::Separator,
        }
    }
}

/// The views of a list of rows.
pub open spec fn entry_views(entries: Seq<MenuEntry>) -> Seq<EntryView> {
    entries.map_values(|e: MenuEntry| e@)
}

impl View for Submenu {
    type V = SubmenuView;

    open spec fn view(&self) -> SubmenuView {
        SubmenuView { title: self.title@, entries: entry_views(self.entries@) }
    }
}

/// The views of a list of menus.
pub open spec fn submenu_views(menus: Seq<Submenu>) -> Seq<SubmenuView> {
    menus.map_values(|m: Submenu| m@)
}

/// The views of a page's actions.
pub open spec fn action_views(actions: Seq<PageAction>) -> Seq<ItemView> {
    actions.map_values(|a: PageAction| a@)
}

/// A row for an item with an accelerator.
pub open spec fn keyed(id: &str, label: &str, accelerator: &str) -> EntryView {
    EntryView::Item(
        ItemView { id: id@, label: label@, accelerator: Some(accelerator@) },
    )
}

/// A row for an item without an accelerator.
pub open spec fn plain(id: &str, label: &str) -> EntryView {
    EntryView::Item(ItemView { id: id@, label: label@, accelerator: None })
}

/// The application's own menu.
pub open spec fn app_menu() -> SubmenuView {
    SubmenuView {
        title: "Dagster Designer"@,
        entries: seq![
            EntryView::Predefined(PredefinedItem::About),
            EntryView::Separator,
            keyed("app:preferences", "Preferences…", "CmdOrCtrl+,"),
            EntryView::Separator,
            EntryView::Predefined(PredefinedItem::Services),
            EntryView::Separator,
            EntryView::Predefined(PredefinedItem::Hide),
            EntryView::Predefined(PredefinedItem::HideOthers),
            EntryView::Predefined(PredefinedItem::ShowAll),
            EntryView::Separator,
            keyed("quit", "Quit Dagster Designer", "CmdOrCtrl+Q"),
        ],
    }
}

/// The Edit menu. Text fields only receive undo, cut, copy, paste and the like through it.
pub open spec fn edit_menu() -> SubmenuView {
    SubmenuView {
        title: "Edit"@,
        entries: seq![
            EntryView::Predefined(PredefinedItem::Undo),
            EntryView::Predefined(PredefinedItem::Redo),
            EntryView::Separator,
            EntryView::Predefined(PredefinedItem::Cut),
            EntryView::Predefined(PredefinedItem::Copy),
            EntryView::Predefined(PredefinedItem::Paste),
            EntryView::Predefined(PredefinedItem::SelectAll),
        ],
    }
}

/// The sections of the navigation rail, in its order: each with its short id and its name.
pub open spec fn view_sections() -> Seq<(Seq<char>, Seq<char>)> {
    seq![
        ("assets"@, "Assets"@),
        ("ingestions"@, "Ingestions"@),
        ("dbt"@, "dbt"@),
        ("monitors"@, "Monitors"@),
        ("alerts"@, "Alerts"@),
        ("runs"@, "Runs"@),
        ("pipelines"@, "Pipelines"@),
        ("primitives"@, "Automation"@),
        ("library"@, "Library"@),
        ("code"@, "Code"@),
        ("resources"@, "Resources"@),
    ]
}

/// The accelerator of the section at `index`: the first nine are numbered from one, as browser
/// tabs are, and the others have none.
pub open spec fn section_accelerator(index: int) -> Option<Seq<char>> {
    if index < 9 {
        Some("CmdOrCtrl+"@ + crate::text::decimal((index + 1) as nat))
    } else {
        None
    }
}

/// The View menu: one item for each section.
pub open spec fn view_menu() -> SubmenuView {
    SubmenuView {
        title: "View"@,
        entries: Seq::new(
            view_sections().len(),
            |i: int|
                EntryView::Item(
                    ItemView {
                        id: "view:"@ + view_sections()[i].0,
                        label: view_sections()[i].1,
                        accelerator: section_accelerator(i),
                    },
                ),
        ),
    }
}

/// The Project menu.
pub open spec fn project_menu() -> SubmenuView {
    SubmenuView {
        title: "Project"@,
        entries: seq![
            keyed("project:new", "New Project…", "CmdOrCtrl+N"),
            keyed("project:open", "Open Project…", "CmdOrCtrl+O"),
            EntryView::Separator,
            plain("project:import", "Import Project…"),
            plain("project:import-dbt-cloud", "Import from dbt Cloud…"),
            plain("project:open-dagster-plus", "Open Dagster+ Project…"),
            EntryView::Separator,
            keyed("project:save", "Save", "CmdOrCtrl+S"),
        ],
    }
}

/// The Actions menu.
pub open spec fn actions_menu() -> SubmenuView {
    SubmenuView {
        title: "Actions"@,
        entries: seq![
            plain("actions:materialize-all", "Materialize All Assets"),
            plain("actions:open-launchpad", "Open Launchpad"),
            plain("actions:launch-job", "Launch Job…"),
            EntryView::Separator,
            plain("actions:regenerate-lineage", "Regenerate Lineage"),
            plain("actions:discover-components", "Discover Components"),
            plain("actions:validate", "Validate Project"),
            EntryView::Separator,
            plain("actions:dockerfile", "Generate Dockerfile"),
            plain("actions:github-actions", "Generate GitHub Actions"),
            EntryView::Separator,
            plain("actions:preview-code", "Preview Code"),
            plain("actions:export", "Export Project…"),
        ],
    }
}

/// The Window menu.
pub open spec fn window_menu() -> SubmenuView {
    SubmenuView {
        title: "Window"@,
        entries: seq![
            EntryView::Predefined(PredefinedItem::Minimize),
            EntryView::Predefined(PredefinedItem::Maximize),
            EntryView::Separator,
            EntryView::Predefined(PredefinedItem::CloseWindow),
        ],
    }
}

/// The id under which the menu holds a page's action: the page's title and the action's own id.
pub open spec fn page_item_id(title: Seq<char>, id: Seq<char>) -> Seq<char> {
    "page:"@ + title + ":"@ + id
}

/// The row for a page's action.
pub open spec fn page_entry(title: Seq<char>, action: ItemView) -> EntryView {
    EntryView::Item(ItemView { id: page_item_id(title, action.id), ..action })
}

/// The menus that the current page adds: none where it has no actions.
pub open spec fn page_menus(page: Option<(Seq<char>, Seq<ItemView>)>) -> Seq<SubmenuView> {
    match page {
        Some((title, actions)) => if actions.len() == 0 {
            Seq::empty()
        } else {
            seq![
                SubmenuView {
                    title,
                    entries: Seq::new(actions.len(), |i: int| page_entry(title, actions[i])),
                },
            ]
        },
        None => Seq::empty(),
    }
}

/// The menus that are there whatever the page, up to the page's own.
pub open spec fn leading_menus() -> Seq<SubmenuView> {
    seq![app_menu(), edit_menu(), view_menu(), project_menu(), actions_menu()]
}

/// The whole menu bar. The page's own menu stands between Actions and Window.
pub open spec fn menu_bar(page: Option<(Seq<char>, Seq<ItemView>)>) -> Seq<SubmenuView> {
    leading_menus() + page_menus(page) + seq![window_menu()]
}

fn keyed_entry(id: &str, label: &str, accelerator: &str) -> (res: MenuEntry)
    ensures
        res@ == keyed(id, label, accelerator),
{
    MenuEntry::Item(
        MenuItem {
            id: id.to_owned(),
            label: label.to_owned(),
            accelerator: Some(accelerator.to_owned()),
        },
    )
}

fn plain_entry(id: &str, label: &str) -> (res: MenuEntry)
    ensures
        res@ == plain(id, label),
{
    MenuEntry::Item(
        MenuItem { id: id.to_owned(), label: label.to_owned(), accelerator: None },
    )
}

fn build_app_menu() -> (res: Submenu)
    ensures
        res@ == app_menu(),
{
    let entries = vec![
        MenuEntry::Predefined(PredefinedItem::About),
        MenuEntry::Separator,
        keyed_entry("app:preferences", "Preferences…", "CmdOrCtrl+,"),
        MenuEntry::Separator,
        MenuEntry::Predefined(PredefinedItem::Services),
        MenuEntry::Separator,
        MenuEntry::Predefined(PredefinedItem::Hide),
        MenuEntry::Predefined(PredefinedItem::HideOthers),
        MenuEntry::Predefined(PredefinedItem::ShowAll),
        MenuEntry::Separator,
        keyed_entry("quit", "Quit Dagster Designer", "CmdOrCtrl+Q"),
    ];
    let res = Submenu { title: "Dagster Designer".to_owned(), entries };
    assert(res@ =~= app_menu());
    res
}

fn build_edit_menu() -> (res: Submenu)
    ensures
        res@ == edit_menu(),
{
    let entries = vec![
        MenuEntry::Predefined(PredefinedItem::Undo),
        MenuEntry::Predefined(PredefinedItem::Redo),
        MenuEntry::Separator,
        MenuEntry::Predefined(PredefinedItem::Cut),
        MenuEntry::Predefined(PredefinedItem::Copy),
        MenuEntry::Predefined(PredefinedItem::Paste),
        MenuEntry::Predefined(PredefinedItem::SelectAll),
    ];
    let res = Submenu { title: "Edit".to_owned(), entries };
    assert(res@ =~= edit_menu());
    res
}

fn build_view_menu() -> (res: Submenu)
    ensures
        res@ == view_menu(),
{
    let sections: [(&str, &str); 11] = [
        ("assets", "Assets"),
        ("ingestions", "Ingestions"),
        ("dbt", "dbt"),
        ("monitors", "Monitors"),
        ("alerts", "Alerts"),
        ("runs", "Runs"),
        ("pipelines", "Pipelines"),
        ("primitives", "Automation"),
        ("library", "Library"),
        ("code", "Code"),
        ("resources", "Resources"),
    ];
    assert(sections@.map_values(|s: (&str, &str)| (s.0@, s.1@)) =~= view_sections());
    assert forall|j: int| 0 <= j < 11 implies #[trigger] view_sections()[j] == (
        sections@[j].0@,
        sections@[j].1@,
    ) by {
        assert(sections@.map_values(|s: (&str, &str)| (s.0@, s.1@))[j] == (
            sections@[j].0@,
            sections@[j].1@,
        ));
    }
    let mut entries: Vec<MenuEntry> = Vec::new();
    let mut i: usize = 0;
    while i < 11
        invariant
            i <= 11,
            view_sections().len() == 11,
            forall|j: int|
                0 <= j < 11 ==> #[trigger] view_sections()[j] == (
                    sections@[j].0@,
                    sections@[j].1@,
                ),
            entry_views(entries@) == view_menu().entries.take(i as int),
        decreases 11 - i,
    {
        let (id, label) = sections[i];
        let accelerator = if i < 9 {
            let number = crate::text::decimal_text((i + 1) as u16);
            Some("CmdOrCtrl+".to_owned().concat(number.as_str()))
        } else {
            None
        };
        let entry = MenuEntry::Item(
            MenuItem {
                id: "view:".to_owned().concat(id),
                label: label.to_owned(),
                accelerator,
            },
        );
        let ghost before = entries@;
        entries.push(entry);
        proof {
            assert(view_sections()[i as int] == (id@, label@));
            assert(entry@ == view_menu().entries[i as int]);
            assert(entry_views(entries@) =~= entry_views(before).push(entry@));
            assert(view_menu().entries.take(i + 1) =~= view_menu().entries.take(i as int).push(
                entry@,
            ));
        }
        i = i + 1;
    }
    let res = Submenu { title: "View".to_owned(), entries };
    assert(res@ =~= view_menu());
    res
}

fn build_project_menu() -> (res: Submenu)
    ensures
        res@ == project_menu(),
{
    let entries = vec![
        keyed_entry("project:new", "New Project…", "CmdOrCtrl+N"),
        keyed_entry("project:open", "Open Project…", "CmdOrCtrl+O"),
        MenuEntry::Separator,
        plain_entry("project:import", "Import Project…"),
        plain_entry("project:import-dbt-cloud", "Import from dbt Cloud…"),
        plain_entry("project:open-dagster-plus", "Open Dagster+ Project…"),
        MenuEntry::Separator,
        keyed_entry("project:save", "Save", "CmdOrCtrl+S"),
    ];
    let res = Submenu { title: "Project".to_owned(), entries };
    assert(res@ =~= project_menu());
    res
}

fn build_actions_menu() -> (res: Submenu)
    ensures
        res@ == actions_menu(),
{
    let entries = vec![
        plain_entry("actions:materialize-all", "Materialize All Assets"),
        plain_entry("actions:open-launchpad", "Open Launchpad"),
        plain_entry("actions:launch-job", "Launch Job…"),
        MenuEntry::Separator,
        plain_entry("actions:regenerate-lineage", "Regenerate Lineage"),
        plain_entry("actions:discover-components", "Discover Components"),
        plain_entry("actions:validate", "Validate Project"),
        MenuEntry::Separator,
        plain_entry("actions:dockerfile", "Generate Dockerfile"),
        plain_entry("actions:github-actions", "Generate GitHub Actions"),
        MenuEntry::Separator,
        plain_entry("actions:preview-code", "Preview Code"),
        plain_entry("actions:export", "Export Project…"),
    ];
    let res = Submenu { title: "Actions".to_owned(), entries };
    assert(res@ =~= actions_menu());
    res
}

fn build_window_menu() -> (res: Submenu)
    ensures
        res@ == window_menu(),
{
    let entries = vec![
        MenuEntry::Predefined(PredefinedItem::Minimize),
        MenuEntry::Predefined(PredefinedItem::Maximize),
        MenuEntry::Separator,
        MenuEntry::Predefined(PredefinedItem::CloseWindow),
    ];
    let res = Submenu { title: "Window".to_owned(), entries };
    assert(res@ =~= window_menu());
    res
}

fn build_page_menu(title: &str, actions: &[PageAction]) -> (res: Submenu)
    ensures
        res@ == (SubmenuView {
            title: title@,
            entries: Seq::new(
                actions@.len(),
                |i: int| page_entry(title@, action_views(actions@)[i]),
            ),
        }),
{
    let ghost wanted = Seq::new(
        actions@.len(),
        |i: int| page_entry(title@, action_views(actions@)[i]),
    );
    let mut entries: Vec<MenuEntry> = Vec::new();
    let mut i: usize = 0;
    while i < actions.len()
        invariant
            i <= actions@.len(),
            wanted == Seq::new(
                actions@.len(),
                |i: int| page_entry(title@, action_views(actions@)[i]),
            ),
            entry_views(entries@) == wanted.take(i as int),
        decreases actions@.len() - i,
    {
        let action = &actions[i];
        let accelerator = match &action.accelerator {
            Some(a) => Some(a.clone()),
            None => None,
        };
        let id = "page:".to_owned().concat(title).concat(":").concat(action.id.as_str());
        let entry = MenuEntry::Item(MenuItem { id, label: action.label.clone(), accelerator });
        let ghost before = entries@;
        entries.push(entry);
        proof {
            assert(action_views(actions@)[i as int] == action@);
            assert(entry@ == wanted[i as int]);
            assert(entry_views(entries@) =~= entry_views(before).push(entry@));
            assert(wanted.take(i + 1) =~= wanted.take(i as int).push(entry@));
        }
        i = i + 1;
    }
    let res = Submenu { title: title.to_owned(), entries };
    assert(res@.entries =~= wanted);
    res
}

/// The view of the current page: its title and its actions.
pub open spec fn page_view(page: Option<(&str, &[PageAction])>) -> Option<
    (Seq<char>, Seq<ItemView>),
> {
    match page {
        Some((title, actions)) => Some((title@, action_views(actions@))),
        None => None,
    }
}

/// Builds the menu bar for the current page, if there is one.
pub fn build_menu(page: Option<(&str, &[PageAction])>) -> (res: Vec<Submenu>)
    ensures
        submenu_views(res@) == menu_bar(page_view(page)),
{
    let mut menus = vec![
        build_app_menu(),
        build_edit_menu(),
        build_view_menu(),
        build_project_menu(),
        build_actions_menu(),
    ];
    assert(submenu_views(menus@) =~= leading_menus());
    if let Some((title, actions)) = page {
        if actions.len() > 0 {
            menus.push(build_page_menu(title, actions));
        }
    }
    assert(submenu_views(menus@) =~= leading_menus() + page_menus(page_view(page)));
    let ghost before = menus@;
    menus.push(build_window_menu());
    assert(submenu_views(menus@) =~= submenu_views(before) + seq![window_menu()]);
    menus
}

} // verus!
