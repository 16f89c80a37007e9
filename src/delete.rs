use vstd::pervasive::unreached;
use vstd::prelude::*;

use crate::error::{Error, Operation, succeeded};
use crate::event::Event;
use crate::wide::{parsing_name, without_extended_prefix};

verus! {

pub const FOF_SILENT: u32 = 0x0004;
pub const FOF_NOCONFIRMATION: u32 = 0x0010;
pub const FOF_ALLOWUNDO: u32 = 0x0040;
pub const FOF_NOCONFIRMMKDIR: u32 = 0x0200;
pub const FOF_NOERRORUI: u32 = 0x0400;
pub const FOF_WANTNUKEWARNING: u32 = 0x4000;
/// Every flag that keeps a file operation from showing any dialog.
pub const FOF_NO_UI: u32 = FOF_SILENT | FOF_NOCONFIRMATION | FOF_NOERRORUI | FOF_NOCONFIRMMKDIR;

/// The flags of a delete: no dialog of any kind, through the recycle bin,
/// with a warning where an item would be destroyed instead.
pub const DELETE_FLAGS: u32 = FOF_NO_UI | FOF_ALLOWUNDO | FOF_WANTNUKEWARNING;

/// Where a batched delete stands.
#[derive(Clone, Copy, Debug, PartialEq, Eq, Structural)]
pub enum DeletePhase {
    Create,
    Flags,
    /// Resolving the path at `next` to a shell item.
    Resolve,
    /// Adding the item of the path at `next` to the batch.
    Add,
    Perform,
    Done,
}

/// The next shell call of a delete.
#[derive(Debug, PartialEq, Eq)]
pub enum DeleteAction {
    /// `CoCreateInstance` of `FileOperation`, for `IFileOperation`.
    CreateOperation,
    /// `SetOperationFlags` with these flags.
    SetOperationFlags(u32),
    /// `SHCreateItemFromParsingName` on this nul-terminated name.
    CreateItem(Vec<u16>),
    /// `DeleteItem` of the item just created.
    DeleteItem,
    /// `PerformOperations`, once, on the whole batch.
    PerformOperations,
    /// The delete is over, with this outcome.
    Finish(Result<(), Error>),
}

/// Moves a list of files to the trash in one batched file operation.
pub struct Deleter {
    pub phase: DeletePhase,
    /// The full paths, as UTF-16 units without a terminator.
    pub paths: Vec<Vec<u16>>,
    /// How many paths have been added to the batch.
    pub next: usize,
}

pub open spec fn delete_expects(phase: DeletePhase, event: Event) -> bool {
    phase != DeletePhase::Done && event is Status
}

/// `r` is the action that resolves the path at `i`.
pub open spec fn resolves(r: DeleteAction, paths: Seq<Vec<u16>>, i: int) -> bool {
    match r {
        DeleteAction::CreateItem(name) => name@ == without_extended_prefix(paths[i]@).push(0u16),
        _ => false,
    }
}

impl Deleter {
    pub open spec fn expects(&self, event: Event) -> bool {
        delete_expects(self.phase, event)
    }

    pub open spec fn wf(&self) -> bool {
        &&& self.next <= self.paths@.len() <= usize::MAX
        &&& match self.phase {
            DeletePhase::Resolve | DeletePhase::Add => self.next < self.paths@.len(),
            DeletePhase::Perform => self.next == self.paths@.len(),
            _ => true,
        }
    }

    /// A delete of `paths` that has not started, with its first action.
    pub fn start(paths: Vec<Vec<u16>>) -> (r: (Deleter, DeleteAction))
        ensures
            r.0.wf(),
            r.0.phase == DeletePhase::Create,
            r.0.paths == paths,
            r.0.next == 0,
            r.1 == DeleteAction::CreateOperation,
    {
        // a Vec never holds more than usize::MAX elements
        let count: usize = paths.len();
        assert(count == paths@.len());
        (Deleter { phase: DeletePhase::Create, paths, next: 0 }, DeleteAction::CreateOperation)
    }

    /// Whether `event` answers the action this delete waits on.
    pub fn accepts(&self, event: &Event) -> (r: bool)
        ensures
            r == self.expects(*event),
    {
        match self.phase {
            DeletePhase::Done => false,
            _ => matches!(event, Event::Status(_)),
        }
    }

    /// The action after the path at `next` is in the batch: resolve the
    /// following one, or perform the batch once all are in.
    fn after_add(&mut self) -> (r: DeleteAction)
        requires
            old(self).next <= old(self).paths@.len(),
        ensures
            final(self).paths == old(self).paths,
            final(self).next == old(self).next,
            final(self).wf(),
            old(self).next == old(self).paths@.len() ==> final(self).phase == DeletePhase::Perform
                && r == DeleteAction::PerformOperations,
            old(self).next < old(self).paths@.len() ==> final(self).phase == DeletePhase::Resolve
                && resolves(r, old(self).paths@, old(self).next as int),
    {
        if self.next < self.paths.len() {
            self.phase = DeletePhase::Resolve;
            DeleteAction::CreateItem(parsing_name(&self.paths[self.next]))
        } else {
            self.phase = DeletePhase::Perform;
            DeleteAction::PerformOperations
        }
    }

    /// Takes the shell's answer to the last action and hands out the next one.
    ///
    /// One batch is made; each path is resolved, without an extended-length
    /// prefix, and added to it in order; the batch is performed once, and
    /// only after every path was added. The first failure ends the delete
    /// with an error naming the call that failed.
    pub fn step(&mut self, event: Event) -> (r: DeleteAction)
        requires
            old(self).wf(),
            old(self).expects(event),
        ensures
            final(self).wf(),
            final(self).paths == old(self).paths,
            r is Finish <==> final(self).phase == DeletePhase::Done,
            !(r is CreateOperation),
            r is SetOperationFlags ==> old(self).phase == DeletePhase::Create,
            r == DeleteAction::PerformOperations ==> final(self).next == final(self).paths@.len(),
            r is CreateItem ==> resolves(r, final(self).paths@, final(self).next as int),
            r is Finish && old(self).phase != DeletePhase::Perform ==> r->Finish_0 is Err,
            match event {
                Event::Status(status) => match old(self).phase {
                    DeletePhase::Create => if succeeded(status) {
                        final(self).phase == DeletePhase::Flags && r
                            == DeleteAction::SetOperationFlags(DELETE_FLAGS)
                    } else {
                        r == DeleteAction::Finish(
                            Err(Error::Platform { operation: Operation::CoCreateInstance, status }),
                        )
                    },
                    DeletePhase::Flags => if succeeded(status) {
                        final(self).next == 0 && if old(self).paths@.len() == 0 {
                            final(self).phase == DeletePhase::Perform && r
                                == DeleteAction::PerformOperations
                        } else {
                            final(self).phase == DeletePhase::Resolve && resolves(r, old(self).paths@, 0)
                        }
                    } else {
                        r == DeleteAction::Finish(
                            Err(Error::Platform { operation: Operation::SetOperationFlags, status }),
                        )
                    },
                    DeletePhase::Resolve => if succeeded(status) {
                        final(self).phase == DeletePhase::Add && final(self).next == old(self).next
                            && r == DeleteAction::DeleteItem
                    } else {
                        r == DeleteAction::Finish(
                            Err(
                                Error::Platform {
                                    operation: Operation::SHCreateItemFromParsingName,
                                    status,
                                },
                            ),
                        )
                    },
                    DeletePhase::Add => if succeeded(status) {
                        final(self).next == old(self).next + 1 && if final(self).next == old(
                            self).paths@.len() {
                            final(self).phase == DeletePhase::Perform && r
                                == DeleteAction::PerformOperations
                        } else {
                            final(self).phase == DeletePhase::Resolve && resolves(
                                r,
                                old(self).paths@,
                                final(self).next as int,
                            )
                        }
                    } else {
                        r == DeleteAction::Finish(
                            Err(Error::Platform { operation: Operation::DeleteItem, status }),
                        )
                    },
                    DeletePhase::Perform => r == DeleteAction::Finish(
                        if succeeded(status) {
                            Ok(())
                        } else {
                            Err(Error::Platform { operation: Operation::PerformOperations, status })
                        },
                    ),
                    DeletePhase::Done => false,
                },
                _ => false,
            },
    {
        let status = match event {
            Event::Status(status) => status,
            _ => unreached(),
        };
        match self.phase {
            DeletePhase::Create => {
                if status >= 0 {
                    self.phase = DeletePhase::Flags;
                    DeleteAction::SetOperationFlags(DELETE_FLAGS)
                } else {
                    self.phase = DeletePhase::Done;
                    DeleteAction::Finish(
                        Err(Error::Platform { operation: Operation::CoCreateInstance, status }),
                    )
                }
            },
            DeletePhase::Flags => {
                if status >= 0 {
                    self.next = 0;
                    self.after_add()
                } else {
                    self.phase = DeletePhase::Done;
                    DeleteAction::Finish(
                        Err(Error::Platform { operation: Operation::SetOperationFlags, status }),
                    )
                }
            },
            DeletePhase::Resolve => {
                if status >= 0 {
                    self.phase = DeletePhase::Add;
                    DeleteAction::DeleteItem
                } else {
                    self.phase = DeletePhase::Done;
                    DeleteAction::Finish(
                        Err(
                            Error::Platform {
                                operation: Operation::SHCreateItemFromParsingName,
                                status,
                            },
                        ),
                    )
                }
            },
            DeletePhase::Add => {
                if status >= 0 {
                    self.next = self.next + 1;
                    self.after_add()
                } else {
                    self.phase = DeletePhase::Done;
                    DeleteAction::Finish(
                        Err(Error::Platform { operation: Operation::DeleteItem, status }),
                    )
                }
            },
            DeletePhase::Perform => {
                self.phase = DeletePhase::Done;
                if status >= 0 {
                    DeleteAction::Finish(Ok(()))
                } else {
                    DeleteAction::Finish(
                        Err(Error::Platform { operation: Operation::PerformOperations, status }),
                    )
                }
            },
            DeletePhase::Done => unreached(),
        }
    }
}

} // verus!
