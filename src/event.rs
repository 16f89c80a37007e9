use vstd::prelude::*;

verus! {

/// What became of reading a deletion date out of a property value.
#[derive(Clone, Copy, Debug, PartialEq, Eq, Structural)]
pub enum DateReading {
    /// The date as a `FILETIME`, by its two halves.
    Ticks { low: u32, high: u32 },
    /// `VariantTimeToSystemTime` refused the value, given by its bits.
    NoCalendarForm { bits: u64 },
    /// `SystemTimeToFileTime` failed with this status.
    FileTimeFailed { status: i32 },
}

/// What the shell answered to the last action.
#[derive(Clone, Debug, PartialEq, Eq)]
pub enum Event {
    /// The `HRESULT` of a call that hands back nothing else.
    Status(i32),
    /// The `HRESULT` of a call with an out-pointer, and whether it was set.
    Output { status: i32, present: bool },
    /// The `HRESULT` of `SHGetSpecialFolderLocation`, and whether the
    /// identifier it gave is the empty one (the root of the namespace).
    Located { status: i32, empty: bool },
    /// The `HRESULT` of `StrRetToStrW` and the units it gave, up to the nul.
    Text { status: i32, units: Vec<u16> },
    /// The units of a value coerced to a string, up to the nul.
    Units(Vec<u16>),
    /// The outcome of reading a value coerced to a date.
    Date(DateReading),
    /// The resource named by the last action has been released.
    Released,
}

} // verus!
