//! Starting the application together with the user's session.
use vstd::prelude::*;

verus! {

/// The registry key under which programs started with the session are listed.
pub open spec fn run_key_path() -> Seq<char> {
    "Software\\Microsoft\\Windows\\CurrentVersion\\Run"@
}

/// The name of the application's value under the run key.
pub open spec fn run_value_name() -> Seq<char> {
    "SysMon"@
}

/// A change to the list of programs started with the session.
#[derive(Debug, Clone, PartialEq, Eq)]
pub enum AutostartChange {
    /// Nothing to change.
    Keep,
    /// Set the application's value to this executable path.
    Register(String),
    /// Delete the application's value.
    Unregister,
}

/// The registry key path of the session's autostart list.
pub fn run_key() -> (s: &'static str)
    ensures
        s@ == run_key_path(),
{
    "Software\\Microsoft\\Windows\\CurrentVersion\\Run"
}

/// The name under which the application registers itself.
pub fn run_value() -> (s: &'static str)
    ensures
        s@ == run_value_name(),
{
    "SysMon"
}

/// What turning autostart on or off changes, given the executable's path
/// as text when it has one: on, the path is registered (nothing happens
/// without a path); off, the registration is removed.
pub fn set_autostart(enable: bool, exe_path: Option<String>) -> (c: AutostartChange)
    ensures
        enable && exe_path is Some ==> c == AutostartChange::Register(exe_path->0),
        enable && exe_path is None ==> c == AutostartChange::Keep,
        !enable ==> c == AutostartChange::Unregister,
{
    if enable {
        match exe_path {
            Some(p) => AutostartChange::Register(p),
            None => AutostartChange::Keep,
        }
    } else {
        AutostartChange::Unregister
    }
}

} // verus!
