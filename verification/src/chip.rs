use vstd::prelude::*;
use vstd::utf8::decode_utf8;

use crate::errors::Error;
use crate::fixed_str::{fixed_decodable, nul_prefix, FixedStr};
use crate::uapi::gpio_chip_info;

verus! {

/// What the core knows of one controller: the kernel's name for it, a
/// functional label, and how many lines it exposes.
#[derive(Debug, Clone)]
pub struct ChipInfo {
    name: FixedStr,
    label: FixedStr,
    lines: u32,
}

impl ChipInfo {
    pub closed spec fn spec_name(&self) -> FixedStr {
        self.name
    }

    pub closed spec fn spec_label(&self) -> FixedStr {
        self.label
    }

    pub closed spec fn spec_lines(&self) -> u32 {
        self.lines
    }

    pub open spec fn wf(&self) -> bool {
        self.spec_name().wf() && self.spec_label().wf()
    }

    /// Decode a controller description from its wire record; both fixed
    /// name fields must be well-formed.
    pub fn from_wire(info: gpio_chip_info) -> (r: Result<ChipInfo, Error>)
        requires
            info.wf(),
        ensures
            r is Ok <==> fixed_decodable(info.name@) && fixed_decodable(info.label@),
            r is Err ==> r->Err_0 == Error::Malformed,
            r is Ok ==> r->Ok_0.wf() && r->Ok_0.spec_name()@ == nul_prefix(info.name@)
                && r->Ok_0.spec_label()@ == nul_prefix(info.label@) && r->Ok_0.spec_lines()
                == info.lines,
    {
        let name = match FixedStr::from_byte_array(info.name) {
            Ok(n) => n,
            Err(_) => {
                return Err(Error::Malformed);
            },
        };
        let label = match FixedStr::from_byte_array(info.label) {
            Ok(l) => l,
            Err(_) => {
                return Err(Error::Malformed);
            },
        };
        Ok(ChipInfo { name, label, lines: info.lines })
    }

    /// The name of the device driving this controller in the kernel.
    pub fn name(&self) -> (r: String)
        requires
            self.wf(),
        ensures
            r@ == decode_utf8(self.spec_name()@),
    {
        self.name.as_text()
    }

    /// A functional name for this controller, such as a product number;
    /// possibly empty.
    pub fn label(&self) -> (r: String)
        requires
            self.wf(),
        ensures
            r@ == decode_utf8(self.spec_label()@),
    {
        self.label.as_text()
    }

    /// The number of lines indexable through this controller.
    pub fn num_lines(&self) -> (r: u32)
        ensures
            r == self.spec_lines(),
    {
        self.lines
    }
}

} // verus!
