pub mod event;
pub mod info;
pub mod option_builder;
pub mod options;
pub mod set;
pub mod values;

pub use info::LineInfo;
pub use options::LineOptions;
pub use set::LineSet;
pub use values::MaskedBits;

use vstd::prelude::*;

use crate::fixed_str::FixedStr;
use crate::line::values::{nth_bit, LineValuesRef};
use crate::uapi::v2::{gpio_line_request, gpio_line_values, GPIO_LINES_MAX, GPIO_MAX_NAME_SIZE};

verus! {

/// Lower an acquisition into the single wire request the kernel takes:
/// the line count and offsets from the set, the flag bitfield of the
/// chosen options, and the consumer label NUL-padded to its fixed width.
/// The label leaves room for its terminator, so the lowered field always
/// ends in a NUL.  Everything else stays zero; the kernel fills the
/// descriptor field.
pub fn build_line_request(offsets: &LineSet, flags: u64, consumer: &FixedStr) -> (r:
    gpio_line_request)
    requires
        offsets.wf(),
        consumer.wf(),
        consumer@.len() <= crate::fixed_str::FIXED_STR_MAX_LEN,
    ensures
        r.wf(),
        r.num_lines == offsets@.len(),
        forall|i: int| 0 <= i < offsets@.len() ==> r.offsets@[i] == offsets@[i],
        forall|i: int| offsets@.len() <= i < GPIO_LINES_MAX ==> r.offsets@[i] == 0u32,
        r.consumer@ == consumer.spec_raw(),
        r.consumer@[GPIO_MAX_NAME_SIZE - 1] == 0u8,
        r.config.flags == flags,
        r.config.num_attrs == 0,
        crate::uapi::v2::all_zero_words(r.config.padding@),
        crate::uapi::v2::all_zero_words(r.padding@),
        r.event_buffer_size == 0,
        r.fd == 0,
{
    let mut req = gpio_line_request::zeroed();
    let (num_lines, lines) = offsets.to_api_v2();
    req.num_lines = num_lines;
    req.offsets = lines;
    req.config.flags = flags;
    req.consumer = consumer.as_byte_vec();
    proof {
        crate::fixed_str::lemma_first_nul_bounds(consumer.spec_raw());
    }
    req
}

/// The value-exchange block that reads every line of a handle: no value
/// bits, and one mask bit per held line.
pub fn read_request(offsets: &LineSet) -> (r: gpio_line_values)
    requires
        offsets.wf(),
    ensures
        r.bits == 0,
        forall|i: u64| i < 64 ==> (#[trigger] nth_bit(r.mask, i) <==> (i as int) < offsets@.len()),
{
    gpio_line_values { bits: 0, mask: offsets.mask() }
}

/// Pair the block the kernel filled with the handle's offsets, fixing
/// the index-to-offset mapping of the read values.
pub fn read_reply<'a>(offsets: &'a LineSet, data: gpio_line_values) -> (r: LineValuesRef<'a>)
    ensures
        r.offsets@ == offsets@,
        r.values == (MaskedBits { bits: data.bits, mask: data.mask }),
{
    LineValuesRef { offsets: offsets.as_set_ref(), values: MaskedBits::new(data.bits, data.mask) }
}

proof fn lemma_mask_and(a: u64, b: u64)
    by (bit_vector)
    ensures
        forall|i: u64|
            i < 64 ==> ((#[trigger] ((a & b) & (1u64 << i)) != 0) == ((a & (1u64 << i) != 0) && (b
                & (1u64 << i) != 0))),
{
}

/// The value-exchange block a write sends: the value bits as given, and
/// the mask clipped to the lines the handle actually holds.
pub fn prepare_write(offsets: &LineSet, values: &MaskedBits) -> (r: gpio_line_values)
    requires
        offsets.wf(),
    ensures
        r.bits == values.bits,
        forall|i: u64|
            i < 64 ==> (#[trigger] nth_bit(r.mask, i) <==> (nth_bit(values.mask, i) && (i as int)
                < offsets@.len())),
{
    let held = offsets.mask();
    let r = gpio_line_values { bits: values.bits, mask: values.mask & held };
    proof {
        lemma_mask_and(values.mask, held);
        assert forall|i: u64| i < 64 implies (#[trigger] nth_bit(r.mask, i) <==> (nth_bit(
            values.mask,
            i,
        ) && (i as int) < offsets@.len())) by {
            assert(nth_bit(held, i) <==> (i as int) < offsets@.len());
            assert(((values.mask & held) & (1u64 << i)) != 0 == ((values.mask & (1u64 << i) != 0)
                && (held & (1u64 << i) != 0)));
        }
    }
    r
}

} // verus!
