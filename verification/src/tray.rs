use vstd::prelude::*;

verus! {

/// Requests that the tray icon can send to the window.
pub enum UserEvent {
    Show,
    Hide,
    Quit,
}

/// State of the system-tray integration: whether the main window is shown.
pub struct TrayManager {
    pub show_flag: bool,
}

impl TrayManager {
    /// A tray manager starts with the window shown.
    pub fn new() -> (tray: Self)
        ensures
            tray.show_flag,
    {
        TrayManager { show_flag: true }
    }
}

} // verus!
