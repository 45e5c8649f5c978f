use vstd::prelude::*;

use crate::uapi::v2::{all_zero_bytes, zero_bytes};

verus! {

/// The most lines one legacy handle request may carry.
pub const GPIOHANDLES_MAX: usize = 64;

/// The batched value block of the legacy handle protocol: one byte per
/// line.
#[derive(Debug, Clone)]
pub struct gpiohandle_data {
    pub values: Vec<u8>,
}

impl gpiohandle_data {
    /// The fixed field width of the wire layout.
    pub open spec fn wf(&self) -> bool {
        self.values@.len() == GPIOHANDLES_MAX
    }

    pub fn zeroed() -> (r: Self)
        ensures
            r.wf(),
            all_zero_bytes(r.values@),
    {
        gpiohandle_data { values: zero_bytes(GPIOHANDLES_MAX) }
    }
}

/// One edge event of the legacy event protocol.
#[derive(Debug, Clone, Copy, PartialEq, Eq, Structural)]
pub struct gpioevent_data {
    pub timestamp: u64,
    pub id: u32,
}

} // verus!
