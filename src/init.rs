use vstd::prelude::*;

verus! {

pub const COINIT_MULTITHREADED: u32 = 0x0;
pub const COINIT_APARTMENTTHREADED: u32 = 0x2;
pub const COINIT_DISABLE_OLE1DDE: u32 = 0x4;
pub const COINIT_SPEED_OVER_MEMORY: u32 = 0x8;

/// The threading model each thread's COM initialization asks for.
#[derive(Clone, Copy, Debug, PartialEq, Eq, Structural)]
pub enum Threading {
    Multithreaded,
    ApartmentThreaded,
}

/// The `COINIT` flags for `CoInitializeEx`: the threading model, with the
/// two optional flags added where asked for.
pub fn init_mode(threading: Threading, disable_ole1dde: bool, speed_over_memory: bool) -> (r:
    u32)
    ensures
        r == (match threading {
            Threading::Multithreaded => COINIT_MULTITHREADED,
            Threading::ApartmentThreaded => COINIT_APARTMENTTHREADED,
        }) | (if disable_ole1dde {
            COINIT_DISABLE_OLE1DDE
        } else {
            0
        }) | (if speed_over_memory {
            COINIT_SPEED_OVER_MEMORY
        } else {
            0
        }),
{
    let base: u32 = match threading {
        Threading::Multithreaded => COINIT_MULTITHREADED,
        Threading::ApartmentThreaded => COINIT_APARTMENTTHREADED,
    };
    let ole: u32 = if disable_ole1dde {
        COINIT_DISABLE_OLE1DDE
    } else {
        0
    };
    let speed: u32 = if speed_over_memory {
        COINIT_SPEED_OVER_MEMORY
    } else {
        0
    };
    base | ole | speed
}

} // verus!
