use vstd::prelude::*;

verus! {

/// A call into the shell subsystem whose failure is reported by name.
#[derive(Clone, Copy, Debug, PartialEq, Eq, Structural)]
pub enum Operation {
    SHGetSpecialFolderLocation,
    SHGetDesktopFolder,
    BindToObject,
    QueryInterface,
    EnumObjects,
    Next,
    GetDisplayNameOf,
    StrRetToStrW,
    GetDetailsEx,
    VariantChangeType,
    SystemTimeToFileTime,
    CoCreateInstance,
    SetOperationFlags,
    SHCreateItemFromParsingName,
    DeleteItem,
    PerformOperations,
}

/// Every way an operation of this library can fail.
#[derive(Clone, Debug, PartialEq, Eq)]
pub enum Error {
    /// A platform call returned a failure status (or an unexpected one).
    Platform { operation: Operation, status: i32 },
    /// A display name that is not well-formed UTF-16; holds the units as read.
    InvalidName { original: Vec<u16> },
    /// An automation date that has no calendar form; holds the bits of the value.
    DateOutOfRange { bits: u64 },
    /// The operation is not provided on this platform yet.
    NotImplemented,
}

/// One entry of the trash.
#[derive(Clone, Debug, PartialEq, Eq)]
pub struct TrashItem {
    /// The parsing name, which identifies the entry to the shell.
    pub id: Vec<u16>,
    /// The name shown for the entry inside the trash folder.
    pub name: String,
    /// Where the entry was before it was deleted.
    pub original_parent: Vec<u16>,
    /// When it was deleted, in seconds since the Unix epoch.
    pub time_deleted: i64,
}

/// `HRESULT` success test: any non-negative status is a success code.
pub open spec fn succeeded(status: i32) -> bool {
    status >= 0
}

/// The one status that counts as complete success.
pub const S_OK: i32 = 0;

} // verus!
