//! What the operating system's own menu bar holds, if that operating system has one Acter
//! puts anything in.
//!
//! A native menu freezes a screen reader on Windows for tens of seconds, so an empty answer
//! here is what keeps the composition root from attaching one.
//!
//! Acter's own items carry Acter's words; the platform's items keep the platform's own
//! localized words, since macOS translates Cut, Paste, Minimise and Quit into the
//! account's language.

use vstd::prelude::*;

use crate::MenuAction;
use crate::text::same_text;

verus! {

/// One menu in the bar, in the order the bar lists them.
#[derive(Debug, Clone, PartialEq, Eq)]
pub struct SystemMenu {
    /// The first menu is the application menu; macOS renders its title in bold as the
    /// application's own name.
    pub title: &'static str,
    pub items: Vec<MenuItem>,
}

/// One line in a menu.
#[derive(Debug, Clone, Copy, PartialEq, Eq)]
pub enum MenuItem {
    /// An item Acter answers itself: choosing it reaches the frontend as a [`MenuAction`].
    Acter {
        action: MenuAction,
        label: &'static str,
        /// `None` when there is no shortcut. Never a lone function key: a Mac with
        /// factory settings needs `fn` to reach those.
        accelerator: Option<&'static str>,
    },
    /// An item the platform owns, including its words and its conventional shortcut.
    Standard(Standard),
    /// Not focusable; a screen reader passes over it.
    Separator,
}

/// The items every application on the platform has, done by the platform.
#[derive(Debug, Clone, Copy, PartialEq, Eq, Hash)]
pub enum Standard {
    Services,
    Hide,
    HideOthers,
    ShowAll,
    /// On macOS, taking this quits the running shell along with the app.
    Quit,
    Undo,
    Redo,
    Cut,
    Copy,
    Paste,
    SelectAll,
    /// Ends the application for Acter.
    CloseWindow,
    Minimize,
    /// macOS's Zoom.
    Maximize,
    Fullscreen,
}

pub open spec fn acter_item(
    action: MenuAction,
    label: &'static str,
    accelerator: Option<&'static str>,
) -> MenuItem {
    MenuItem::Acter { action, label, accelerator }
}

/// The application menu.
pub open spec fn application_items() -> Seq<MenuItem> {
    seq![
        acter_item(MenuAction::About, "About Acter", None),
        MenuItem::Separator,
        MenuItem::Standard(Standard::Services),
        MenuItem::Separator,
        MenuItem::Standard(Standard::Hide),
        MenuItem::Standard(Standard::HideOthers),
        MenuItem::Standard(Standard::ShowAll),
        MenuItem::Separator,
        MenuItem::Standard(Standard::Quit),
    ]
}

pub open spec fn file_items() -> Seq<MenuItem> {
    seq![
        acter_item(MenuAction::Connect, "Connect…", Some("CmdOrCtrl+K")),
        acter_item(MenuAction::NewConnection, "New connection…", Some("CmdOrCtrl+N")),
        acter_item(MenuAction::SaveConnection, "Save connection…", Some("CmdOrCtrl+S")),
        MenuItem::Separator,
        MenuItem::Standard(Standard::CloseWindow),
    ]
}

pub open spec fn edit_items() -> Seq<MenuItem> {
    seq![
        MenuItem::Standard(Standard::Undo),
        MenuItem::Standard(Standard::Redo),
        MenuItem::Separator,
        MenuItem::Standard(Standard::Cut),
        MenuItem::Standard(Standard::Copy),
        MenuItem::Standard(Standard::Paste),
        MenuItem::Standard(Standard::SelectAll),
    ]
}

pub open spec fn view_items() -> Seq<MenuItem> {
    seq![MenuItem::Standard(Standard::Fullscreen)]
}

pub open spec fn window_items() -> Seq<MenuItem> {
    seq![
        MenuItem::Standard(Standard::Minimize),
        MenuItem::Standard(Standard::Maximize),
        MenuItem::Separator,
        MenuItem::Standard(Standard::CloseWindow),
    ]
}

pub open spec fn help_items() -> Seq<MenuItem> {
    seq![acter_item(MenuAction::Help, "Acter Help", Some("CmdOrCtrl+Slash"))]
}

/// The titles of macOS's menu bar, in order, each with its items.
pub open spec fn macos_bar() -> Seq<(&'static str, Seq<MenuItem>)> {
    seq![
        ("Acter", application_items()),
        ("File", file_items()),
        ("Edit", edit_items()),
        ("View", view_items()),
        ("Window", window_items()),
        ("Help", help_items()),
    ]
}

/// Whether `menus` is exactly the bar `bar` describes.
pub open spec fn shows(menus: Seq<SystemMenu>, bar: Seq<(&'static str, Seq<MenuItem>)>) -> bool {
    &&& menus.len() == bar.len()
    &&& forall|i: int|
        0 <= i < menus.len() ==> (#[trigger] menus[i]).title == bar[i].0 && menus[i].items@
            == bar[i].1
}

pub open spec fn bar_for(os: Seq<char>) -> Seq<(&'static str, Seq<MenuItem>)> {
    if os == "macos"@ {
        macos_bar()
    } else {
        seq![]
    }
}

/// What this operating system's menu bar holds, or nothing if its menu is not there.
///
/// Windows returns nothing because its menu lives in the document; Linux because nobody
/// has decided yet.
pub fn system_menu(os: &str) -> (r: Vec<SystemMenu>)
    ensures
        shows(r@, bar_for(os@)),
{
    if same_text(os, "macos") {
        macos()
    } else {
        Vec::new()
    }
}

fn menu(title: &'static str, items: Vec<MenuItem>) -> (r: SystemMenu)
    ensures
        r.title == title,
        r.items@ == items@,
{
    SystemMenu { title, items }
}

fn macos() -> (r: Vec<SystemMenu>)
    ensures
        shows(r@, macos_bar()),
{
    let application = menu(
        "Acter",
        vec![
            // Reads name, version, copyright and licence; the native panel only has the
            // first two.
            MenuItem::Acter { action: MenuAction::About, label: "About Acter", accelerator: None },
            MenuItem::Separator,
            MenuItem::Standard(Standard::Services),
            MenuItem::Separator,
            MenuItem::Standard(Standard::Hide),
            MenuItem::Standard(Standard::HideOthers),
            MenuItem::Standard(Standard::ShowAll),
            MenuItem::Separator,
            MenuItem::Standard(Standard::Quit),
        ],
    );
    let file = menu(
        "File",
        vec![
            // Cmd+K is macOS's own "connect to server" shortcut.
            MenuItem::Acter {
                action: MenuAction::Connect,
                label: "Connect…",
                accelerator: Some("CmdOrCtrl+K"),
            },
            // CmdOrCtrl+N and CmdOrCtrl+S are macOS's own new/save shortcuts in every
            // application.
            MenuItem::Acter {
                action: MenuAction::NewConnection,
                label: "New connection…",
                accelerator: Some("CmdOrCtrl+N"),
            },
            MenuItem::Acter {
                action: MenuAction::SaveConnection,
                label: "Save connection…",
                accelerator: Some("CmdOrCtrl+S"),
            },
            MenuItem::Separator,
            MenuItem::Standard(Standard::CloseWindow),
        ],
    );
    // macOS routes the webview's own copy and paste through the menu bar; without these
    // items Cmd+C stops working in the terminal.
    let edit = menu(
        "Edit",
        vec![
            MenuItem::Standard(Standard::Undo),
            MenuItem::Standard(Standard::Redo),
            MenuItem::Separator,
            MenuItem::Standard(Standard::Cut),
            MenuItem::Standard(Standard::Copy),
            MenuItem::Standard(Standard::Paste),
            MenuItem::Standard(Standard::SelectAll),
        ],
    );
    let view = menu("View", vec![MenuItem::Standard(Standard::Fullscreen)]);
    let window = menu(
        "Window",
        vec![
            MenuItem::Standard(Standard::Minimize),
            MenuItem::Standard(Standard::Maximize),
            MenuItem::Separator,
            MenuItem::Standard(Standard::CloseWindow),
        ],
    );
    // Cmd+Slash, not the usual Cmd+? for Help: macOS reserves Shift+Cmd+/ for the menu's
    // own search field and intercepts it before the app sees it.
    let help = menu(
        "Help",
        vec![
            MenuItem::Acter {
                action: MenuAction::Help,
                label: "Acter Help",
                accelerator: Some("CmdOrCtrl+Slash"),
            },
        ],
    );
    let r = vec![application, file, edit, view, window, help];
    assert(application.items@ =~= application_items());
    assert(file.items@ =~= file_items());
    assert(edit.items@ =~= edit_items());
    assert(view.items@ =~= view_items());
    assert(window.items@ =~= window_items());
    assert(help.items@ =~= help_items());
    r
}

} // verus!
