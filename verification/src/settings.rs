//! User settings and console-mode updates.
//!
//! The settings screen persists two switches to a configuration file and
//! toggles two console modes. The mode updates are computed here from a
//! current mode word; reading and writing the console, like reading and
//! writing the settings file, happens outside the library, which only
//! computes the new mode word and renders the file's text.

use crate::console::{ConsoleModeFlags, ENABLE_QUICK_EDIT_MODE, ENABLE_VIRTUAL_TERMINAL_PROCESSING};
use vstd::prelude::*;

verus! {

/// The persisted user settings.
#[derive(Debug, Clone, Copy, PartialEq, Eq, Structural)]
pub struct UserSettings {
    /// Whether debug-level log output is shown.
    pub debug: bool,
    /// Whether the console window is shown.
    pub console: bool,
}

/// The text a boolean takes in the settings file.
pub open spec fn spec_bool_chars(b: bool) -> Seq<char> {
    if b {
        "true"@
    } else {
        "false"@
    }
}

impl UserSettings {
    /// The default settings: no debug output, console shown.
    pub fn new() -> (r: UserSettings)
        ensures
            r.debug == false,
            r.console == true,
    {
        UserSettings { debug: false, console: true }
    }

    /// The settings file's path under the application's data directory.
    pub fn settings_path(data_dir: &str) -> (r: String)
        ensures
            r@ == data_dir@ + "\\settings.toml"@,
    {
        let path = String::from_str(data_dir);
        path.concat("\\settings.toml")
    }

    /// The text this value takes in the settings file: one `key = value`
    /// line per switch.
    pub open spec fn spec_file_chars(self) -> Seq<char> {
        "debug = "@ + spec_bool_chars(self.debug) + "\n"@ + "console = "@ + spec_bool_chars(
            self.console,
        ) + "\n"@
    }

    /// Render this value as the settings file's text.
    pub fn to_file_string(&self) -> (r: String)
        ensures
            r@ == self.spec_file_chars(),
    {
        let mut s = String::new();
        s.append("debug = ");
        s.append(if self.debug {
            "true"
        } else {
            "false"
        });
        s.append("\n");
        s.append("console = ");
        s.append(if self.console {
            "true"
        } else {
            "false"
        });
        s.append("\n");
        proof {
            assert(s@ =~= self.spec_file_chars());
        }
        s
    }
}

/// The console input mode with quick-edit selection switched on or off.
///
/// Quick-edit mode lets the user copy console text but blocks every
/// write while a selection is active, which would hang the process;
/// reading and writing the actual console handle stays outside the
/// library.
pub fn set_quick_edit_mode(mode: ConsoleModeFlags, active: bool) -> (r: ConsoleModeFlags)
    ensures
        active ==> r.bits == mode.bits | ENABLE_QUICK_EDIT_MODE,
        !active ==> r.bits == mode.bits & !ENABLE_QUICK_EDIT_MODE,
{
    if active {
        mode.insert(ENABLE_QUICK_EDIT_MODE)
    } else {
        mode.remove(ENABLE_QUICK_EDIT_MODE)
    }
}

/// The console output mode with terminal escape processing switched on
/// or off, which colored log output needs.
pub fn set_virtual_terminal_processing(mode: ConsoleModeFlags, active: bool) -> (r:
    ConsoleModeFlags)
    ensures
        active ==> r.bits == mode.bits | ENABLE_VIRTUAL_TERMINAL_PROCESSING,
        !active ==> r.bits == mode.bits & !ENABLE_VIRTUAL_TERMINAL_PROCESSING,
{
    if active {
        mode.insert(ENABLE_VIRTUAL_TERMINAL_PROCESSING)
    } else {
        mode.remove(ENABLE_VIRTUAL_TERMINAL_PROCESSING)
    }
}

} // verus!
