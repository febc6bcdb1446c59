//! Console mode words.
//!
//! The console subsystem reports and accepts a 32-bit mode word per
//! stream handle. The bit set is modeled here so that mode updates —
//! inserting or removing one flag — are computed and proved exactly; the
//! handle lookup and the native get/set calls stay outside the library.

use vstd::prelude::*;

verus! {

/// Which console stream a handle names.
#[derive(Debug, Clone, Copy, PartialEq, Eq, Structural)]
pub enum ConsoleHandleType {
    Input,
    Output,
    Error,
}

/// Input mode: characters are echoed as typed.
pub const ENABLE_ECHO_INPUT: u32 = 0x4;

/// Input mode: insert mode is on.
pub const ENABLE_INSERT_MODE: u32 = 0x20;

/// Input mode: input is returned line by line.
pub const ENABLE_LINE_INPUT: u32 = 0x2;

/// Input mode: mouse events are reported.
pub const ENABLE_MOUSE_INPUT: u32 = 0x10;

/// Input mode: control characters are processed by the system.
pub const ENABLE_PROCESSED_INPUT: u32 = 0x1;

/// Input mode: the user can select and copy text with the mouse. While
/// a selection is active, writes to the console block.
pub const ENABLE_QUICK_EDIT_MODE: u32 = 0x40;

/// Input mode: window size changes are reported.
pub const ENABLE_WINDOW_INPUT: u32 = 0x8;

/// Input mode: input is translated to terminal escape sequences.
pub const ENABLE_VIRTUAL_TERMINAL_INPUT: u32 = 0x200;

/// Output mode: control characters are processed on output.
pub const ENABLE_PROCESSED_OUTPUT: u32 = 0x1;

/// Output mode: the cursor wraps at the end of each line.
pub const ENABLE_WRAP_AT_EOL_OUTPUT: u32 = 0x2;

/// Output mode: terminal escape sequences are interpreted, which colored
/// log output needs.
pub const ENABLE_VIRTUAL_TERMINAL_PROCESSING: u32 = 0x4;

/// Output mode: the newline at the right edge is deferred.
pub const DISABLE_NEWLINE_AUTO_RETURN: u32 = 0x8;

/// Output mode: grid attributes are honored worldwide.
pub const ENABLE_LVB_GRID_WORLDWIDE: u32 = 0x10;

/// A mode bit the system sets whose meaning is not documented.
pub const CONSOLE_MODE_UNKNOWN_1: u32 = 0x100;

/// A mode bit the system sets whose meaning is not documented.
pub const CONSOLE_MODE_UNKNOWN_2: u32 = 0x80;

/// Every mode bit this model recognizes, input and output sets
/// together.
pub const CONSOLE_MODE_ALL_BITS: u32 = 0x3ff;

/// A console stream's mode word: a set of the mode bits above.
#[derive(Debug, Clone, Copy, PartialEq, Eq, Structural)]
pub struct ConsoleModeFlags {
    pub bits: u32,
}

impl ConsoleModeFlags {
    /// Interpret a raw mode word: accepted exactly when every set bit is
    /// a recognized mode bit.
    pub open spec fn spec_from_bits(v: u32) -> Option<ConsoleModeFlags> {
        if v & !CONSOLE_MODE_ALL_BITS == 0 {
            Some(ConsoleModeFlags { bits: v })
        } else {
            None
        }
    }

    /// Interpret a raw mode word, rejecting unrecognized bits.
    pub fn from_bits(v: u32) -> (r: Option<ConsoleModeFlags>)
        ensures
            r == Self::spec_from_bits(v),
    {
        if v & !CONSOLE_MODE_ALL_BITS == 0 {
            Some(ConsoleModeFlags { bits: v })
        } else {
            None
        }
    }

    /// The raw mode word.
    pub fn bits(&self) -> (r: u32)
        ensures
            r == self.bits,
    {
        self.bits
    }

    /// Whether every bit of `flag` is set.
    pub fn contains(&self, flag: u32) -> (r: bool)
        ensures
            r == (self.bits & flag == flag),
    {
        self.bits & flag == flag
    }

    /// The mode word with every bit of `flag` set.
    pub fn insert(&self, flag: u32) -> (r: ConsoleModeFlags)
        ensures
            r.bits == self.bits | flag,
    {
        ConsoleModeFlags { bits: self.bits | flag }
    }

    /// The mode word with every bit of `flag` cleared.
    pub fn remove(&self, flag: u32) -> (r: ConsoleModeFlags)
        ensures
            r.bits == self.bits & !flag,
    {
        ConsoleModeFlags { bits: self.bits & !flag }
    }
}

} // verus!
