//! What the shell does when a menu item is picked, its window is asked to close, or the system ends
//! it.

use crate::text::{has_prefix, same_text};
use vstd::prelude::*;
use vstd::string::*;

verus! {

/// What the shell does in answer to an event.
#[derive(Debug, PartialEq, Eq)]
pub enum Response {
    /// Stop the backend, then leave with this exit code.
    Quit { exit_code: i32 },
    /// Tell the frontend.
    Emit { event: String, payload: String },
    /// Nothing.
    Ignore,
}

/// What a [`Response`] says.
pub enum ResponseView {
    Quit { exit_code: int },
    Emit { event: Seq<char>, payload: Seq<char> },
    Ignore,
}

impl View for Response {
    type V = ResponseView;

    open spec fn view(&self) -> ResponseView {
        match *self {
            Response::Quit { exit_code } => ResponseView::Quit { exit_code: exit_code as int },
            Response::Emit { event, payload } => ResponseView::Emit {
                event: event@,
                payload: payload@,
            },
            Response::Ignore => ResponseView::Ignore,
        }
    }
}

/// Whether the frontend owns what a menu item does.
pub open spec fn owned_by_frontend(id: Seq<char>) -> bool {
    ||| "project:"@.is_prefix_of(id)
    ||| "actions:"@.is_prefix_of(id)
    ||| "app:"@.is_prefix_of(id)
    ||| "page:"@.is_prefix_of(id)
    ||| "view:"@.is_prefix_of(id)
}

/// The answer to a menu item: the quit item quits, what the frontend owns is passed on to it
/// under its id, and anything else is left to the operating system.
pub open spec fn menu_response(id: Seq<char>) -> ResponseView {
    if id == "quit"@ {
        ResponseView::Quit { exit_code: 0 }
    } else if owned_by_frontend(id) {
        ResponseView::Emit { event: "menu-action"@, payload: id }
    } else {
        ResponseView::Ignore
    }
}

/// Answers a picked menu item.
pub fn on_menu_event(id: &str) -> (res: Response)
    ensures
        res@ == menu_response(id@),
{
    if same_text(id, "quit") {
        return Response::Quit { exit_code: 0 };
    }
    if has_prefix(id, "project:") || has_prefix(id, "actions:") || has_prefix(id, "app:")
        || has_prefix(id, "page:") || has_prefix(id, "view:") {
        Response::Emit { event: "menu-action".to_owned(), payload: id.to_owned() }
    } else {
        Response::Ignore
    }
}

/// The answer to a window event: a request to close the window quits.
pub open spec fn window_response(close_requested: bool) -> ResponseView {
    if close_requested {
        ResponseView::Quit { exit_code: 0 }
    } else {
        ResponseView::Ignore
    }
}

/// Answers a window event, given whether it is a request to close the window.
pub fn on_window_event(close_requested: bool) -> (res: Response)
    ensures
        res@ == window_response(close_requested),
{
    if close_requested {
        Response::Quit { exit_code: 0 }
    } else {
        Response::Ignore
    }
}

/// The answer to an event of the run as a whole: where the system ends it, as it does when the user
/// quits from the Dock, that quits.
pub open spec fn run_response(exiting: bool) -> ResponseView {
    if exiting {
        ResponseView::Quit { exit_code: 0 }
    } else {
        ResponseView::Ignore
    }
}

/// Answers an event of the run as a whole, given whether it is its end.
pub fn on_run_event(exiting: bool) -> (res: Response)
    ensures
        res@ == run_response(exiting),
{
    if exiting {
        Response::Quit { exit_code: 0 }
    } else {
        Response::Ignore
    }
}

/// Every way to quit is answered alike, so that none of them can skip stopping the backend: the
/// quit item with its accelerator, the window's close button, and an end of the run that comes
/// from outside the window, such as the Dock's.
pub proof fn law_quit_paths_agree()
    ensures
        menu_response("quit"@) == (ResponseView::Quit { exit_code: 0 }),
        window_response(true) == menu_response("quit"@),
        run_response(true) == menu_response("quit"@),
{
}

/// Nothing but these quits.
pub proof fn law_only_quit_quits(id: Seq<char>)
    ensures
        menu_response(id) is Quit <==> id == "quit"@,
        window_response(false) is Ignore,
        run_response(false) is Ignore,
{
}

/// An id that begins with one of the frontend's prefixes is passed on whole, with all that follows
/// the prefix.
pub proof fn law_frontend_ids_are_passed_on_whole(prefix: Seq<char>, rest: Seq<char>)
    requires
        prefix == "project:"@ || prefix == "actions:"@ || prefix == "app:"@ || prefix == "page:"@
            || prefix == "view:"@,
    ensures
        menu_response(prefix + rest) == (ResponseView::Emit {
            event: "menu-action"@,
            payload: prefix + rest,
        }),
{
    reveal_strlit("project:");
    reveal_strlit("actions:");
    reveal_strlit("app:");
    reveal_strlit("page:");
    reveal_strlit("view:");
    reveal_strlit("quit");
    assert((prefix + rest).take(prefix.len() as int) =~= prefix);
    assert((prefix + rest)[0] == prefix[0]);
}

/// An id that neither is the quit item's nor begins with one of the frontend's prefixes is left
/// alone.
pub proof fn law_other_ids_are_left_alone(id: Seq<char>)
    requires
        id != "quit"@,
        !"project:"@.is_prefix_of(id),
        !"actions:"@.is_prefix_of(id),
        !"app:"@.is_prefix_of(id),
        !"page:"@.is_prefix_of(id),
        !"view:"@.is_prefix_of(id),
    ensures
        menu_response(id) is Ignore,
{
}

} // verus!
