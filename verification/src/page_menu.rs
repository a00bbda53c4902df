//! Showing a page's actions in the menu bar, one step at a time: the menu bar is built, and only
//! then does it take the place of the one that is there.

use crate::menu;
use crate::menu::{
    build_menu, EntryView, ItemView, MenuEntry, PageAction, Submenu, SubmenuView,
};
use crate::menu_laws;
use crate::save;
use vstd::prelude::*;
use vstd::string::*;

verus! {

/// The current page as the page itself publishes it: without a title there is no page, whatever
/// the actions.
pub open spec fn published_page(title: Option<Seq<char>>, actions: Seq<ItemView>) -> Option<
    (Seq<char>, Seq<ItemView>),
> {
    match title {
        Some(t) => Some((t, actions)),
        None => None,
    }
}

/// What is to be done next in changing the menu bar.
#[derive(Debug, PartialEq, Eq)]
pub enum MenuRequest {
    /// Build the native menu bar that shows these menus.
    Build { menus: Vec<Submenu> },
    /// Put it in the place of the one that is there.
    Install,
    /// Answer the page.
    Answer { result: Result<(), String> },
}

/// How far a change of the menu bar has come.
#[derive(Debug, PartialEq, Eq)]
pub enum MenuChange {
    Build { title: Option<String>, actions: Vec<PageAction> },
    Install,
    Finished { result: Result<(), String> },
}

/// What a [`MenuRequest`] says.
#[verifier::ext_equal]
pub enum MenuRequestView {
    Build { menus: Seq<SubmenuView> },
    Install,
    Answer { result: Result<(), Seq<char>> },
}

/// What a [`MenuChange`] says.
pub enum MenuChangeView {
    Build { title: Option<Seq<char>>, actions: Seq<ItemView> },
    Install,
    Finished { result: Result<(), Seq<char>> },
}

impl View for MenuRequest {
    type V = MenuRequestView;

    open spec fn view(&self) -> MenuRequestView {
        match *self {
            MenuRequest::Build { menus } => MenuRequestView::Build {
                menus: menu::submenu_views(menus@),
            },
            MenuRequest::Install => MenuRequestView::Install,
            MenuRequest::Answer { result } => MenuRequestView::Answer {
                result: save::result_view(result),
            },
        }
    }
}

impl View for MenuChange {
    type V = MenuChangeView;

    open spec fn view(&self) -> MenuChangeView {
        match *self {
            MenuChange::Build { title, actions } => MenuChangeView::Build {
                title: crate::text::optional_text(title),
                actions: menu::action_views(actions@),
            },
            MenuChange::Install => MenuChangeView::Install,
            MenuChange::Finished { result } => MenuChangeView::Finished {
                result: save::result_view(result),
            },
        }
    }
}

impl MenuChangeView {
    /// What is to be done next.
    pub open spec fn request(self) -> MenuRequestView {
        match self {
            MenuChangeView::Build { title, actions } => MenuRequestView::Build {
                menus: menu::menu_bar(published_page(title, actions)),
            },
            MenuChangeView::Install => MenuRequestView::Install,
            MenuChangeView::Finished { result } => MenuRequestView::Answer { result },
        }
    }

    /// The change after a request was done or failed. A failure ends it with the reason.
    pub open spec fn replied(self, result: Result<(), Seq<char>>) -> MenuChangeView {
        match self {
            MenuChangeView::Build { title, actions } => match result {
                Ok(()) => MenuChangeView::Install,
                Err(reason) => MenuChangeView::Finished { result: Err(reason) },
            },
            MenuChangeView::Install => MenuChangeView::Finished { result },
            MenuChangeView::Finished { result: answer } => self,
        }
    }
}

/// Begins to show the actions of the page that has just published its title and actions.
pub fn set_page_menu(title: Option<String>, actions: Vec<PageAction>) -> (res: MenuChange)
    ensures
        res@ == (MenuChangeView::Build {
            title: crate::text::optional_text(title),
            actions: menu::action_views(actions@),
        }),
{
    MenuChange::Build { title, actions }
}

impl MenuChange {
    /// Says what is to be done next.
    pub fn request(&self) -> (res: MenuRequest)
        ensures
            res@ == self@.request(),
    {
        match self {
            MenuChange::Build { title, actions } => {
                let menus = match title {
                    Some(t) => build_menu(Some((t.as_str(), actions.as_slice()))),
                    None => build_menu(None),
                };
                MenuRequest::Build { menus }
            },
            MenuChange::Install => MenuRequest::Install,
            MenuChange::Finished { result } => MenuRequest::Answer {
                result: match result {
                    Ok(()) => Ok(()),
                    Err(reason) => Err(reason.clone()),
                },
            },
        }
    }

    /// Takes note of what came of the request.
    pub fn reply(self, result: Result<(), String>) -> (res: MenuChange)
        ensures
            res@ == self@.replied(save::result_view(result)),
    {
        match self {
            MenuChange::Build { title: _, actions: _ } => match result {
                Ok(()) => MenuChange::Install,
                Err(reason) => MenuChange::Finished { result: Err(reason) },
            },
            MenuChange::Install => MenuChange::Finished { result },
            MenuChange::Finished { result: answer } => MenuChange::Finished { result: answer },
        }
    }
}

/// A whole change: the menu bar for the page is built and installed, and the page is answered with
/// what came of that.
pub proof fn law_whole_menu_change(
    title: Option<Seq<char>>,
    actions: Seq<ItemView>,
    outcome: Result<(), Seq<char>>,
)
    ensures
        ({
            let begun = MenuChangeView::Build { title, actions };
            let built = begun.replied(Ok(()));
            &&& begun.request() == (MenuRequestView::Build {
                menus: menu::menu_bar(published_page(title, actions)),
            })
            &&& built.request() is Install
            &&& built.replied(outcome).request() == (MenuRequestView::Answer { result: outcome })
        }),
{
}

/// A menu bar that cannot be built leaves the one that is there: the page is answered with the
/// reason, whatever comes later.
pub proof fn law_unbuilt_menu_is_not_installed(
    title: Option<Seq<char>>,
    actions: Seq<ItemView>,
    reason: Seq<char>,
    later: Result<(), Seq<char>>,
)
    ensures
        ({
            let failed = (MenuChangeView::Build { title, actions }).replied(Err(reason));
            &&& failed.request() == (MenuRequestView::Answer { result: Err(reason) })
            &&& failed.replied(later) == failed
        }),
{
}

/// A page's title and actions are shown whole: the menu bar that is built has seven menus, and the
/// sixth bears the title and has one row for each action, in order, under the page's title and the
/// action's id, with the action's label and accelerator.
pub proof fn law_published_actions_are_shown(title: Seq<char>, actions: Seq<ItemView>, i: int)
    requires
        0 <= i < actions.len(),
    ensures
        (MenuChangeView::Build { title: Some(title), actions }).request() matches
            MenuRequestView::Build { menus } && {
            &&& menus.len() == 7
            &&& menus[5].title == title
            &&& menus[5].entries.len() == actions.len()
            &&& menus[5].entries[i] matches EntryView::Item(item)
            &&& item.id == "page:"@ + title + ":"@ + actions[i].id
            &&& item.label == actions[i].label
            &&& item.accelerator == actions[i].accelerator
        },
{
    menu_laws::law_page_menu_shows_the_actions(title, actions, i);
}

/// Around the page's own menu, the menu bar is as it is without a page; and without a title, or
/// without actions, that is all there is.
pub proof fn law_rest_of_menu_stays(title: Seq<char>, actions: Seq<ItemView>)
    ensures
        (MenuChangeView::Build { title: None, actions }).request() == (MenuRequestView::Build {
            menus: menu::menu_bar(None),
        }),
        (MenuChangeView::Build { title: Some(title), actions }).request() matches
            MenuRequestView::Build { menus } && {
            &&& menus.take(5) == menu::menu_bar(None).take(5)
            &&& menus.last() == menu::menu_bar(None).last()
            &&& actions.len() == 0 ==> menus == menu::menu_bar(None)
        },
{
    menu_laws::law_page_menu_stands_before_window(Some((title, actions)));
    menu_laws::law_page_menu_stands_before_window(None);
}

/// The menus that are asked for have, row for row, the fields of the actions that were published.
pub proof fn law_requested_menus_show_the_actions(
    request: MenuRequest,
    title: String,
    actions: Vec<PageAction>,
    i: int,
)
    requires
        request@ == (MenuChange::Build { title: Some(title), actions })@.request(),
        0 <= i < actions@.len(),
    ensures
        request matches MenuRequest::Build { menus } && {
            &&& menus@.len() == 7
            &&& menus@[5].title@ == title@
            &&& menus@[5].entries@.len() == actions@.len()
            &&& menus@[5].entries@[i] matches MenuEntry::Item(item)
            &&& item.id@ == "page:"@ + title@ + ":"@ + actions@[i].id@
            &&& item.label@ == actions@[i].label@
            &&& item.accelerator is Some <==> actions@[i].accelerator is Some
            &&& item.accelerator is Some ==> item.accelerator->0@ == actions@[i].accelerator->0@
        },
{
    let shown = menu::action_views(actions@);
    assert(shown.len() == actions@.len());
    assert(shown[i] == actions@[i]@);
    law_published_actions_are_shown(title@, shown, i);
    assert(request is Build);
    let menus = request->menus;
    let views = menu::submenu_views(menus@);
    assert(views.len() == menus@.len());
    assert(views[5] == menus@[5]@);
    assert(menus@[5]@.entries[i] == menus@[5].entries@[i]@);
}

} // verus!
