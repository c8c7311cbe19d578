//! Names shared between the native side and the web content.
use vstd::prelude::*;
use vstd::string::StringExecFns;

verus! {

/// Label of the window that hosts the web content.
pub open spec fn main_window_label_spec() -> Seq<char> {
    "main"@
}

/// Notification the framework raises when the system theme changes.
pub open spec fn native_theme_event_spec() -> Seq<char> {
    "tauri://theme-changed"@
}

/// Event under which a theme change is handed to the web content.
pub open spec fn web_theme_event_spec() -> Seq<char> {
    "theme-changed"@
}

pub fn main_window_label() -> (r: String)
    ensures
        r@ == main_window_label_spec(),
{
    String::from_str("main")
}

pub fn native_theme_event() -> (r: String)
    ensures
        r@ == native_theme_event_spec(),
{
    String::from_str("tauri://theme-changed")
}

pub fn web_theme_event() -> (r: String)
    ensures
        r@ == web_theme_event_spec(),
{
    String::from_str("theme-changed")
}

/// One event handed to the web content: its name and its payload.
#[derive(Clone, Debug, PartialEq, Eq)]
pub struct Emission {
    pub event: String,
    pub payload: String,
}

} // verus!
