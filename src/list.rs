use vstd::pervasive::unreached;
use vstd::prelude::*;

use crate::error::{Error, Operation, TrashItem, succeeded, S_OK};
use crate::time::{file_time_to_unix_seconds, ticks_of_parts, unix_seconds_of_ticks};
use crate::event::{DateReading, Event};
use crate::wide::{decode_utf16, utf16_of};

verus! {

/// The two display-name forms that listing asks for.
#[derive(Clone, Copy, Debug, PartialEq, Eq, Structural)]
pub enum NameForm {
    /// `SHGDN_FORPARSING`: a name the shell can resolve again.
    ForParsing,
    /// `SHGDN_INFOLDER`: the name shown inside the trash folder.
    InFolder,
}

/// The two properties that listing reads from each entry.
#[derive(Clone, Copy, Debug, PartialEq, Eq, Structural)]
pub enum Property {
    /// `SCID_ORIGINAL_LOCATION`, read as a string.
    OriginalLocation,
    /// `SCID_DATE_DELETED`, read as a date.
    DateDeleted,
}

/// `SHCONTF_FOLDERS`: enumerate sub-folders.
pub const SHCONTF_FOLDERS: u32 = 0x20;
/// `SHCONTF_NONFOLDERS`: enumerate items that are not folders.
pub const SHCONTF_NONFOLDERS: u32 = 0x40;
/// The enumeration flags of a listing: every child, folder or not.
pub const ENUM_FLAGS: u32 = SHCONTF_FOLDERS | SHCONTF_NONFOLDERS;

/// Where a listing stands, and so what it waits for.
#[derive(Clone, Copy, Debug, PartialEq, Eq, Structural)]
pub enum ListPhase {
    Enumerate,
    Next,
    DisplayName(NameForm),
    StrRet(NameForm),
    Details(Property),
    Coerce(Property),
    Read(Property),
    Clear(Property),
    Release,
    Done,
}

/// The next thing to do on the shell's side.
#[derive(Debug, PartialEq, Eq)]
pub enum ListAction {
    /// `EnumObjects` on the trash folder with these flags.
    EnumObjects(u32),
    /// `Next` on the enumerator, for one item identifier.
    NextItem,
    /// `GetDisplayNameOf` the current item in this form.
    GetDisplayNameOf(NameForm),
    /// `StrRetToStrW` on the name just got; copy the units, free the buffer.
    StrRetToStr(NameForm),
    /// `GetDetailsEx` of the current item for this property.
    GetDetailsEx(Property),
    /// `VariantChangeType` in place: to `VT_BSTR` for the original location,
    /// to `VT_DATE` for the deletion date.
    ChangeType(Property),
    /// Read the coerced value.
    ReadValue(Property),
    /// `VariantClear` on the value.
    ClearValue,
    /// `CoTaskMemFree` the current item identifier.
    ReleaseItem,
    /// The listing is over, with this outcome.
    Finish(Result<Vec<TrashItem>, Error>),
}

/// Lists the trash one shell call at a time. The caller performs each action
/// it is handed and answers with the event that came of it.
pub struct Lister {
    pub phase: ListPhase,
    /// Entries assembled so far, in enumeration order.
    pub items: Vec<TrashItem>,
    /// Parts of the current entry.
    pub id: Vec<u16>,
    pub name: Vec<u16>,
    pub location: Vec<u16>,
    pub time_deleted: i64,
    /// The error that ends the listing once the resources held are released.
    pub pending: Option<Error>,
}

/// `pending` holds the error for a display name made of `units`.
pub open spec fn is_invalid_name(pending: Option<Error>, units: Seq<u16>) -> bool {
    match pending {
        Some(Error::InvalidName { original }) => original@ == units,
        _ => false,
    }
}

/// `after` is `before` with its current entry assembled: the entry is
/// appended where its in-folder name is the UTF-16 form of some text, and
/// otherwise the listing records that the name is invalid.
pub open spec fn assembled(before: Lister, after: Lister) -> bool {
    ||| {
        &&& after.pending is None
        &&& after.items@.len() == before.items@.len() + 1
        &&& after.items@.drop_last() == before.items@
        &&& after.items@.last().id@ == before.id@
        &&& utf16_of(after.items@.last().name@) == before.name@
        &&& after.items@.last().original_parent@ == before.location@
        &&& after.items@.last().time_deleted == before.time_deleted
    }
    ||| {
        &&& after.items == before.items
        &&& is_invalid_name(after.pending, before.name@)
        &&& forall|t: Seq<char>| #[trigger] utf16_of(t) != before.name@
    }
}

/// The event that the action of `phase` is answered with.
pub open spec fn list_expects(phase: ListPhase, event: Event) -> bool {
    match phase {
        ListPhase::Enumerate => event is Output,
        ListPhase::Next => event is Status,
        ListPhase::DisplayName(_) => event is Status,
        ListPhase::StrRet(_) => event is Text,
        ListPhase::Details(_) => event is Status,
        ListPhase::Coerce(_) => event is Status,
        ListPhase::Read(Property::OriginalLocation) => event is Units,
        ListPhase::Read(Property::DateDeleted) => event is Date,
        ListPhase::Clear(_) => event is Released,
        ListPhase::Release => event is Released,
        ListPhase::Done => false,
    }
}

impl Lister {
    /// An item identifier is held from a successful `Next` until the
    /// `Released` that answers `ReleaseItem`.
    pub open spec fn holds_item(&self) -> bool {
        match self.phase {
            ListPhase::Enumerate | ListPhase::Next | ListPhase::Done => false,
            _ => true,
        }
    }

    /// A property value is held from a successful `GetDetailsEx` until the
    /// `Released` that answers `ClearValue`.
    pub open spec fn holds_value(&self) -> bool {
        self.phase is Coerce || self.phase is Read || self.phase is Clear
    }

    pub open spec fn expects(&self, event: Event) -> bool {
        list_expects(self.phase, event)
    }

    /// An error waits only while what is held is being released.
    pub open spec fn wf(&self) -> bool {
        self.pending is Some ==> (self.phase is Clear || self.phase == ListPhase::Release)
    }

    /// A listing that has not started, with its first action.
    pub fn start() -> (r: (Lister, ListAction))
        ensures
            r.0.phase == ListPhase::Enumerate,
            r.0.items@.len() == 0,
            r.0.pending is None,
            r.0.wf(),
            r.1 == ListAction::EnumObjects(ENUM_FLAGS),
    {
        let lister = Lister {
            phase: ListPhase::Enumerate,
            items: Vec::new(),
            id: Vec::new(),
            name: Vec::new(),
            location: Vec::new(),
            time_deleted: 0,
            pending: None,
        };
        (lister, ListAction::EnumObjects(ENUM_FLAGS))
    }

    /// Whether `event` answers the action this listing waits on.
    pub fn accepts(&self, event: &Event) -> (r: bool)
        ensures
            r == self.expects(*event),
    {
        match self.phase {
            ListPhase::Enumerate => matches!(event, Event::Output { .. }),
            ListPhase::Next => matches!(event, Event::Status(_)),
            ListPhase::DisplayName(_) => matches!(event, Event::Status(_)),
            ListPhase::StrRet(_) => matches!(event, Event::Text { .. }),
            ListPhase::Details(_) => matches!(event, Event::Status(_)),
            ListPhase::Coerce(_) => matches!(event, Event::Status(_)),
            ListPhase::Read(Property::OriginalLocation) => matches!(event, Event::Units(_)),
            ListPhase::Read(Property::DateDeleted) => matches!(event, Event::Date(_)),
            ListPhase::Clear(_) => matches!(event, Event::Released),
            ListPhase::Release => matches!(event, Event::Released),
            ListPhase::Done => false,
        }
    }

    /// Sets the error that ends the listing and moves on to the release of
    /// what is held.
    fn fail(&mut self, e: Error, phase: ListPhase)
        ensures
            final(self).pending == Some(e),
            final(self).phase == phase,
            final(self).items == old(self).items,
            final(self).id == old(self).id,
            final(self).name == old(self).name,
            final(self).location == old(self).location,
            final(self).time_deleted == old(self).time_deleted,
    {
        self.pending = Some(e);
        self.phase = phase;
    }

    /// Takes the shell's answer to the last action and hands out the next one.
    ///
    /// Every item identifier and property value taken is released exactly
    /// once, on the way to success and on the way to an error alike: a
    /// resource leaves the held set only through the `Released` that answers
    /// its own release action, and the listing finishes holding nothing.
    /// Enumeration counts only the primary success status; any other status
    /// ends the listing with an error naming `EnumObjects`. The end of the
    /// enumeration (a success status other than `S_OK`) ends it with the
    /// entries gathered; a failure status of `Next` ends it with an error.
    pub fn step(&mut self, event: Event) -> (r: ListAction)
        requires
            old(self).wf(),
            old(self).expects(event),
        ensures
            final(self).wf(),
            // resources: taken only by a successful `Next`, given back only
            // through their release, and none held at the end
            !old(self).holds_item() && final(self).holds_item() ==> (old(self).phase
                == ListPhase::Next && event == Event::Status(S_OK)),
            old(self).holds_item() && !final(self).holds_item() ==> (old(self).phase
                == ListPhase::Release && event == Event::Released),
            !old(self).holds_value() && final(self).holds_value() ==> (old(self).phase is Details
                && event is Status && succeeded(event->Status_0)),
            old(self).holds_value() && !final(self).holds_value() ==> (old(self).phase is Clear
                && event == Event::Released),
            r == ListAction::ReleaseItem ==> final(self).phase == ListPhase::Release,
            r == ListAction::ClearValue ==> final(self).phase is Clear,
            r is Finish <==> final(self).phase == ListPhase::Done,
            r is Finish ==> !old(self).holds_value() && (!old(self).holds_item() || old(
                self).phase == ListPhase::Release),
            // what each step keeps: a part of the current entry changes only
            // in the step that sets it, or when the entry is assembled
            old(self).phase != ListPhase::StrRet(NameForm::ForParsing) && old(self).phase
                != ListPhase::Clear(Property::DateDeleted) ==> final(self).id == old(self).id,
            old(self).phase != ListPhase::StrRet(NameForm::InFolder) && old(self).phase
                != ListPhase::Clear(Property::DateDeleted) ==> final(self).name == old(self).name,
            old(self).phase != ListPhase::Read(Property::OriginalLocation) && old(self).phase
                != ListPhase::Clear(Property::DateDeleted) ==> final(self).location == old(
                self).location,
            old(self).phase != ListPhase::Read(Property::DateDeleted) ==> final(self).time_deleted
                == old(self).time_deleted,
            old(self).phase != ListPhase::Clear(Property::DateDeleted) && !(r is Finish) ==> final(
                self).items == old(self).items,
            // an error is recorded only on the way to a release
            old(self).pending is None && final(self).pending is Some ==> (r
                == ListAction::ReleaseItem || r == ListAction::ClearValue),
            old(self).pending is Some && !(r is Finish) ==> final(self).pending == old(
                self).pending,
            // enumeration
            old(self).phase == ListPhase::Enumerate ==> match event {
                Event::Output { status, present } => if status == S_OK && present {
                    final(self).phase == ListPhase::Next && r == ListAction::NextItem
                        && final(self).items == old(self).items
                } else {
                    r == ListAction::Finish(
                        Err(Error::Platform { operation: Operation::EnumObjects, status }),
                    )
                },
                _ => false,
            },
            old(self).phase == ListPhase::Next ==> match event {
                Event::Status(status) => if status == S_OK {
                    final(self).phase == ListPhase::DisplayName(NameForm::ForParsing) && r
                        == ListAction::GetDisplayNameOf(NameForm::ForParsing) && final(
                        self).items == old(self).items && final(self).pending is None
                } else if succeeded(status) {
                    r matches ListAction::Finish(Ok(v)) && v@ == old(self).items@
                } else {
                    r == ListAction::Finish(
                        Err(Error::Platform { operation: Operation::Next, status }),
                    )
                },
                _ => false,
            },
            // display names
            old(self).phase is DisplayName ==> match event {
                Event::Status(status) => if succeeded(status) {
                    final(self).phase == ListPhase::StrRet(old(self).phase->DisplayName_0)
                        && r == ListAction::StrRetToStr(old(self).phase->DisplayName_0)
                } else {
                    r == ListAction::ReleaseItem && final(self).pending == Some(
                        Error::Platform { operation: Operation::GetDisplayNameOf, status },
                    )
                },
                _ => false,
            },
            old(self).phase == ListPhase::StrRet(NameForm::ForParsing) ==> match event {
                Event::Text { status, units } => if succeeded(status) {
                    final(self).id@ == units@ && final(self).phase == ListPhase::DisplayName(
                        NameForm::InFolder) && r == ListAction::GetDisplayNameOf(
                        NameForm::InFolder)
                } else {
                    r == ListAction::ReleaseItem && final(self).pending == Some(
                        Error::Platform { operation: Operation::StrRetToStrW, status },
                    )
                },
                _ => false,
            },
            old(self).phase == ListPhase::StrRet(NameForm::InFolder) ==> match event {
                Event::Text { status, units } => if succeeded(status) {
                    final(self).name@ == units@ && final(self).id == old(self).id && final(
                        self).phase == ListPhase::Details(Property::OriginalLocation) && r
                        == ListAction::GetDetailsEx(Property::OriginalLocation)
                } else {
                    r == ListAction::ReleaseItem && final(self).pending == Some(
                        Error::Platform { operation: Operation::StrRetToStrW, status },
                    )
                },
                _ => false,
            },
            // property values
            old(self).phase is Details ==> match event {
                Event::Status(status) => if succeeded(status) {
                    final(self).phase == ListPhase::Coerce(old(self).phase->Details_0) && r
                        == ListAction::ChangeType(old(self).phase->Details_0)
                } else {
                    r == ListAction::ReleaseItem && final(self).pending == Some(
                        Error::Platform { operation: Operation::GetDetailsEx, status },
                    )
                },
                _ => false,
            },
            old(self).phase is Coerce ==> match event {
                Event::Status(status) => if succeeded(status) {
                    final(self).phase == ListPhase::Read(old(self).phase->Coerce_0) && r
                        == ListAction::ReadValue(old(self).phase->Coerce_0)
                } else {
                    r == ListAction::ClearValue && final(self).pending == Some(
                        Error::Platform { operation: Operation::VariantChangeType, status },
                    )
                },
                _ => false,
            },
            old(self).phase == ListPhase::Read(Property::OriginalLocation) ==> match event {
                Event::Units(units) => final(self).location@ == units@ && final(self).pending
                    == old(self).pending && final(self).phase
                    == ListPhase::Clear(Property::OriginalLocation) && r
                    == ListAction::ClearValue,
                _ => false,
            },
            old(self).phase == ListPhase::Read(Property::DateDeleted) ==> match event {
                Event::Date(reading) => final(self).phase == ListPhase::Clear(
                    Property::DateDeleted) && r == ListAction::ClearValue && match reading {
                    DateReading::Ticks { low, high } => final(self).time_deleted
                        == unix_seconds_of_ticks(ticks_of_parts(low, high) as u64)
                        && final(self).pending == old(self).pending,
                    DateReading::NoCalendarForm { bits } => final(self).pending == Some(
                        Error::DateOutOfRange { bits },
                    ),
                    DateReading::FileTimeFailed { status } => final(self).pending == Some(
                        Error::Platform { operation: Operation::SystemTimeToFileTime, status },
                    ),
                },
                _ => false,
            },
            // releases, and assembling an entry once its parts are in
            old(self).phase is Clear && old(self).pending is Some ==> r
                == ListAction::ReleaseItem && final(self).pending == old(self).pending,
            old(self).phase == ListPhase::Clear(Property::OriginalLocation) && old(
                self).pending is None ==> final(self).phase == ListPhase::Details(
                Property::DateDeleted) && r == ListAction::GetDetailsEx(Property::DateDeleted),
            old(self).phase == ListPhase::Clear(Property::DateDeleted) && old(self).pending is None
                ==> r == ListAction::ReleaseItem && assembled(*old(self), *final(self)),
            old(self).phase == ListPhase::Release ==> match old(self).pending {
                Some(e) => r == ListAction::Finish(Err(e)),
                None => final(self).phase == ListPhase::Next && r == ListAction::NextItem
                    && final(self).items == old(self).items && final(self).pending is None,
            },
    {
        match self.phase {
            ListPhase::Enumerate => {
                match event {
                    Event::Output { status, present } => {
                        if status == S_OK && present {
                            self.phase = ListPhase::Next;
                            ListAction::NextItem
                        } else {
                            self.phase = ListPhase::Done;
                            ListAction::Finish(
                                Err(Error::Platform { operation: Operation::EnumObjects, status }),
                            )
                        }
                    },
                    _ => unreached(),
                }
            },
            ListPhase::Next => {
                match event {
                    Event::Status(status) => {
                        if status == S_OK {
                            self.phase = ListPhase::DisplayName(NameForm::ForParsing);
                            self.pending = None;
                            ListAction::GetDisplayNameOf(NameForm::ForParsing)
                        } else if status >= 0 {
                            self.phase = ListPhase::Done;
                            let items = self.take_items();
                            ListAction::Finish(Ok(items))
                        } else {
                            self.phase = ListPhase::Done;
                            ListAction::Finish(
                                Err(Error::Platform { operation: Operation::Next, status }),
                            )
                        }
                    },
                    _ => unreached(),
                }
            },
            ListPhase::DisplayName(form) => {
                match event {
                    Event::Status(status) => {
                        if status >= 0 {
                            self.phase = ListPhase::StrRet(form);
                            ListAction::StrRetToStr(form)
                        } else {
                            self.fail(
                                Error::Platform { operation: Operation::GetDisplayNameOf, status },
                                ListPhase::Release,
                            );
                            ListAction::ReleaseItem
                        }
                    },
                    _ => unreached(),
                }
            },
            ListPhase::StrRet(form) => {
                match event {
                    Event::Text { status, units } => {
                        if status >= 0 {
                            match form {
                                NameForm::ForParsing => {
                                    self.id = units;
                                    self.phase = ListPhase::DisplayName(NameForm::InFolder);
                                    ListAction::GetDisplayNameOf(NameForm::InFolder)
                                },
                                NameForm::InFolder => {
                                    self.name = units;
                                    self.phase = ListPhase::Details(Property::OriginalLocation);
                                    ListAction::GetDetailsEx(Property::OriginalLocation)
                                },
                            }
                        } else {
                            self.fail(
                                Error::Platform { operation: Operation::StrRetToStrW, status },
                                ListPhase::Release,
                            );
                            ListAction::ReleaseItem
                        }
                    },
                    _ => unreached(),
                }
            },
            ListPhase::Details(property) => {
                match event {
                    Event::Status(status) => {
                        if status >= 0 {
                            self.phase = ListPhase::Coerce(property);
                            ListAction::ChangeType(property)
                        } else {
                            self.fail(
                                Error::Platform { operation: Operation::GetDetailsEx, status },
                                ListPhase::Release,
                            );
                            ListAction::ReleaseItem
                        }
                    },
                    _ => unreached(),
                }
            },
            ListPhase::Coerce(property) => {
                match event {
                    Event::Status(status) => {
                        if status >= 0 {
                            self.phase = ListPhase::Read(property);
                            ListAction::ReadValue(property)
                        } else {
                            self.fail(
                                Error::Platform { operation: Operation::VariantChangeType, status },
                                ListPhase::Clear(property),
                            );
                            ListAction::ClearValue
                        }
                    },
                    _ => unreached(),
                }
            },
            ListPhase::Read(property) => {
                self.phase = ListPhase::Clear(property);
                match event {
                    Event::Units(units) => {
                        self.location = units;
                    },
                    Event::Date(reading) => {
                        match reading {
                            DateReading::Ticks { low, high } => {
                                self.time_deleted = file_time_to_unix_seconds(low, high);
                            },
                            DateReading::NoCalendarForm { bits } => {
                                self.pending = Some(Error::DateOutOfRange { bits });
                            },
                            DateReading::FileTimeFailed { status } => {
                                self.pending = Some(
                                    Error::Platform {
                                        operation: Operation::SystemTimeToFileTime,
                                        status,
                                    },
                                );
                            },
                        }
                    },
                    _ => unreached(),
                }
                ListAction::ClearValue
            },
            ListPhase::Clear(property) => {
                if self.pending.is_some() {
                    self.phase = ListPhase::Release;
                    ListAction::ReleaseItem
                } else {
                    match property {
                        Property::OriginalLocation => {
                            self.phase = ListPhase::Details(Property::DateDeleted);
                            ListAction::GetDetailsEx(Property::DateDeleted)
                        },
                        _ => {
                            self.assemble();
                            self.phase = ListPhase::Release;
                            ListAction::ReleaseItem
                        },
                    }
                }
            },
            ListPhase::Release => {
                let pending = self.pending.take();
                match pending {
                    Some(e) => {
                        self.phase = ListPhase::Done;
                        ListAction::Finish(Err(e))
                    },
                    None => {
                        self.phase = ListPhase::Next;
                        ListAction::NextItem
                    },
                }
            },
            ListPhase::Done => unreached(),
        }
    }

    /// Puts the current entry together from its parts, or records that its
    /// display name is not well-formed.
    fn assemble(&mut self)
        requires
            old(self).pending is None,
        ensures
            final(self).phase == old(self).phase,
            final(self).time_deleted == old(self).time_deleted,
            assembled(*old(self), *final(self)),
    {
        match decode_utf16(&self.name) {
            Some(text) => {
                let mut id: Vec<u16> = Vec::new();
                let mut location: Vec<u16> = Vec::new();
                core::mem::swap(&mut id, &mut self.id);
                core::mem::swap(&mut location, &mut self.location);
                let item = TrashItem {
                    id,
                    name: text,
                    original_parent: location,
                    time_deleted: self.time_deleted,
                };
                self.items.push(item);
                assert(self.items@.drop_last() =~= old(self).items@);
            },
            None => {
                let mut original: Vec<u16> = Vec::new();
                core::mem::swap(&mut original, &mut self.name);
                self.pending = Some(Error::InvalidName { original });
            },
        }
    }

    fn take_items(&mut self) -> (r: Vec<TrashItem>)
        ensures
            r@ == old(self).items@,
            final(self).items@.len() == 0,
            final(self).phase == old(self).phase,
            final(self).pending == old(self).pending,
            final(self).id == old(self).id,
            final(self).name == old(self).name,
            final(self).location == old(self).location,
            final(self).time_deleted == old(self).time_deleted,
    {
        let mut out: Vec<TrashItem> = Vec::new();
        core::mem::swap(&mut out, &mut self.items);
        out
    }
}

} // verus!
