use vstd::prelude::*;
use crate::menu::{ABOUT_ID, OPEN_FILE_ID};

verus! {

/// Name under which the main window is registered.
pub const MAIN_WINDOW: &'static str = "main";

/// Event sent to the main window's web content when Open File is activated.
pub const FILE_OPEN_EVENT: &'static str = "menu://file-open";

/// What a menu activation asks for, told apart by the entry's identifier.
#[derive(PartialEq, Eq, Structural, Clone, Copy, Debug)]
pub enum MenuCommand {
    About,
    OpenFile,
    Other,
}

/// The command that an identifier stands for.
pub open spec fn command_spec(id: Seq<char>) -> MenuCommand {
    if id == ABOUT_ID@ {
        MenuCommand::About
    } else if id == OPEN_FILE_ID@ {
        MenuCommand::OpenFile
    } else {
        MenuCommand::Other
    }
}

fn same_text(a: &str, b: &str) -> (r: bool)
    ensures
        r == (a@ == b@),
{
    a.to_owned() == b.to_owned()
}

/// Tells which command the activated entry `id` stands for.
pub fn menu_command(id: &str) -> (r: MenuCommand)
    ensures
        r == command_spec(id@),
{
    if same_text(id, ABOUT_ID) {
        MenuCommand::About
    } else if same_text(id, OPEN_FILE_ID) {
        MenuCommand::OpenFile
    } else {
        MenuCommand::Other
    }
}

/// An event to emit, with an empty payload, to the web content of the window
/// registered as `window`.
#[derive(Debug, PartialEq, Eq)]
pub struct Emission {
    pub window: String,
    pub event: String,
}

/// Decides what the activation of the entry `id` emits, given whether a
/// window is registered as `"main"`: the Open File event to that window for
/// `file_open`, and nothing otherwise.
pub fn route_menu_event(id: &str, main_window_open: bool) -> (r: Option<Emission>)
    ensures
        id@ == "file_open"@ && main_window_open ==> (r matches Some(e) && e.window@ == "main"@
            && e.event@ == "menu://file-open"@),
        id@ == "file_open"@ && !main_window_open ==> r is None,
        id@ != "file_open"@ ==> r is None,
{
    proof {
        reveal_strlit("app_about");
        reveal_strlit("file_open");
    }
    assert("app_about"@[0] != "file_open"@[0]);
    match menu_command(id) {
        MenuCommand::OpenFile => {
            if main_window_open {
                Some(Emission { window: MAIN_WINDOW.to_owned(), event: FILE_OPEN_EVENT.to_owned() })
            } else {
                None
            }
        },
        _ => None,
    }
}

} // verus!
