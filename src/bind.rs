use vstd::pervasive::unreached;
use vstd::prelude::*;

use crate::error::{Error, Operation, succeeded};
use crate::event::Event;

verus! {

/// Where binding the trash folder stands.
#[derive(Clone, Copy, Debug, PartialEq, Eq, Structural)]
pub enum BindPhase {
    Locate,
    /// The location is held; `empty` tells whether it names the root.
    Desktop { empty: bool },
    /// `BindToObject` (or, for the root, `QueryInterface`) is under way.
    Bind { empty: bool },
    FreeLocation,
    Done,
}

/// The next shell call of a binding.
#[derive(Debug, PartialEq, Eq)]
pub enum BindAction {
    /// `SHGetSpecialFolderLocation` for `CSIDL_BITBUCKET`.
    GetSpecialFolderLocation,
    /// `SHGetDesktopFolder`.
    GetDesktopFolder,
    /// `BindToObject` of the location on the desktop, for `IShellFolder2`.
    BindToObject,
    /// The location is the root itself: `QueryInterface` the desktop for
    /// `IShellFolder2` instead of binding.
    QueryInterface,
    /// `CoTaskMemFree` the location.
    FreeLocation,
    /// Binding is over: on `Ok` the folder got by the last call is the trash.
    Finish(Result<(), Error>),
}

/// Resolves the trash folder's identifier and binds it to a folder object.
pub struct Binder {
    pub phase: BindPhase,
    /// The error that ends the binding once the location is freed.
    pub pending: Option<Error>,
}

pub open spec fn bind_expects(phase: BindPhase, event: Event) -> bool {
    match phase {
        BindPhase::Locate => event is Located,
        BindPhase::Desktop { .. } => event is Output,
        BindPhase::Bind { .. } => event is Status,
        BindPhase::FreeLocation => event is Released,
        BindPhase::Done => false,
    }
}

impl Binder {
    /// The location is held from a successful `SHGetSpecialFolderLocation`
    /// until the `Released` that answers `FreeLocation`.
    pub open spec fn holds_location(&self) -> bool {
        self.phase is Desktop || self.phase is Bind || self.phase is FreeLocation
    }

    pub open spec fn expects(&self, event: Event) -> bool {
        bind_expects(self.phase, event)
    }

    /// A binding that has not started, with its first action.
    pub fn start() -> (r: (Binder, BindAction))
        ensures
            r.0.phase == BindPhase::Locate,
            r.0.pending is None,
            r.1 == BindAction::GetSpecialFolderLocation,
    {
        (Binder { phase: BindPhase::Locate, pending: None }, BindAction::GetSpecialFolderLocation)
    }

    /// Whether `event` answers the action this binding waits on.
    pub fn accepts(&self, event: &Event) -> (r: bool)
        ensures
            r == self.expects(*event),
    {
        match self.phase {
            BindPhase::Locate => matches!(event, Event::Located { .. }),
            BindPhase::Desktop { .. } => matches!(event, Event::Output { .. }),
            BindPhase::Bind { .. } => matches!(event, Event::Status(_)),
            BindPhase::FreeLocation => matches!(event, Event::Released),
            BindPhase::Done => false,
        }
    }

    /// Takes the shell's answer to the last action and hands out the next one.
    ///
    /// The location is freed exactly once after it was got, whatever fails
    /// later; the root location is not bound but asked for the interface.
    pub fn step(&mut self, event: Event) -> (r: BindAction)
        requires
            old(self).expects(event),
        ensures
            !old(self).holds_location() && final(self).holds_location() ==> (old(self).phase
                == BindPhase::Locate && event is Located && succeeded(event->Located_status)),
            old(self).holds_location() && !final(self).holds_location() ==> (old(self).phase
                == BindPhase::FreeLocation && event == Event::Released),
            r == BindAction::FreeLocation ==> final(self).phase == BindPhase::FreeLocation,
            r is Finish <==> final(self).phase == BindPhase::Done,
            old(self).phase == BindPhase::Locate ==> match event {
                Event::Located { status, empty } => if succeeded(status) {
                    final(self).phase == (BindPhase::Desktop { empty }) && r
                        == BindAction::GetDesktopFolder && final(self).pending == old(self).pending
                } else {
                    r == BindAction::Finish(
                        Err(
                            Error::Platform {
                                operation: Operation::SHGetSpecialFolderLocation,
                                status,
                            },
                        ),
                    )
                },
                _ => false,
            },
            old(self).phase is Desktop ==> match event {
                Event::Output { status, present } => if succeeded(status) && present {
                    final(self).phase == (BindPhase::Bind { empty: old(self).phase->Desktop_empty })
                        && final(self).pending == old(self).pending && r == if old(
                        self).phase->Desktop_empty {
                        BindAction::QueryInterface
                    } else {
                        BindAction::BindToObject
                    }
                } else {
                    r == BindAction::FreeLocation && final(self).pending == Some(
                        Error::Platform { operation: Operation::SHGetDesktopFolder, status },
                    )
                },
                _ => false,
            },
            old(self).phase is Bind ==> match event {
                Event::Status(status) => r == BindAction::FreeLocation && if succeeded(status) {
                    final(self).pending == old(self).pending
                } else {
                    final(self).pending == Some(
                        Error::Platform {
                            operation: if old(self).phase->Bind_empty {
                                Operation::QueryInterface
                            } else {
                                Operation::BindToObject
                            },
                            status,
                        },
                    )
                },
                _ => false,
            },
            old(self).phase == BindPhase::FreeLocation ==> r == BindAction::Finish(
                match old(self).pending {
                    Some(e) => Err(e),
                    None => Ok(()),
                },
            ),
    {
        match self.phase {
            BindPhase::Locate => match event {
                Event::Located { status, empty } => {
                    if status >= 0 {
                        self.phase = BindPhase::Desktop { empty };
                        BindAction::GetDesktopFolder
                    } else {
                        self.phase = BindPhase::Done;
                        BindAction::Finish(
                            Err(
                                Error::Platform {
                                    operation: Operation::SHGetSpecialFolderLocation,
                                    status,
                                },
                            ),
                        )
                    }
                },
                _ => unreached(),
            },
            BindPhase::Desktop { empty } => match event {
                Event::Output { status, present } => {
                    if status >= 0 && present {
                        self.phase = BindPhase::Bind { empty };
                        if empty {
                            BindAction::QueryInterface
                        } else {
                            BindAction::BindToObject
                        }
                    } else {
                        self.pending = Some(
                            Error::Platform { operation: Operation::SHGetDesktopFolder, status },
                        );
                        self.phase = BindPhase::FreeLocation;
                        BindAction::FreeLocation
                    }
                },
                _ => unreached(),
            },
            BindPhase::Bind { empty } => {
                if let Event::Status(status) = event {
                    if status < 0 {
                        let operation = if empty {
                            Operation::QueryInterface
                        } else {
                            Operation::BindToObject
                        };
                        self.pending = Some(Error::Platform { operation, status });
                    }
                }
                self.phase = BindPhase::FreeLocation;
                BindAction::FreeLocation
            },
            BindPhase::FreeLocation => {
                self.phase = BindPhase::Done;
                match self.pending.take() {
                    Some(e) => BindAction::Finish(Err(e)),
                    None => BindAction::Finish(Ok(())),
                }
            },
            BindPhase::Done => unreached(),
        }
    }
}

} // verus!
