use vstd::prelude::*;

pub mod v1;
pub mod v2;

verus! {

/// A controller description as the kernel fills it: two fixed name
/// fields and the number of addressable lines.
#[derive(Debug, Clone)]
pub struct gpio_chip_info {
    pub name: Vec<u8>,
    pub label: Vec<u8>,
    pub lines: u32,
}

impl gpio_chip_info {
    /// The fixed field widths of the wire layout.
    pub open spec fn wf(&self) -> bool {
        self.name@.len() == crate::uapi::v2::GPIO_MAX_NAME_SIZE && self.label@.len()
            == crate::uapi::v2::GPIO_MAX_NAME_SIZE
    }
}

} // verus!
