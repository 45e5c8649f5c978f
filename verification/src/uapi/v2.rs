use vstd::prelude::*;

verus! {

/// The most lines one request may carry.
pub const GPIO_LINES_MAX: usize = 64;

/// The size of the fixed name and consumer fields, in bytes.
pub const GPIO_MAX_NAME_SIZE: usize = 32;

/// The most attribute entries one line-info record may carry.
pub const GPIO_LINE_NUM_ATTRS_MAX: usize = 10;

// The line flag bits of the protocol's request and info records.
pub const LINE_FLAG_USED: u64 = 1u64 << 0;

pub const LINE_FLAG_ACTIVE_LOW: u64 = 1u64 << 1;

pub const LINE_FLAG_INPUT: u64 = 1u64 << 2;

pub const LINE_FLAG_OUTPUT: u64 = 1u64 << 3;

pub const LINE_FLAG_EDGE_RISING: u64 = 1u64 << 4;

pub const LINE_FLAG_EDGE_FALLING: u64 = 1u64 << 5;

pub const LINE_FLAG_OPEN_DRAIN: u64 = 1u64 << 6;

pub const LINE_FLAG_OPEN_SOURCE: u64 = 1u64 << 7;

pub const LINE_FLAG_BIAS_PULL_UP: u64 = 1u64 << 8;

pub const LINE_FLAG_BIAS_PULL_DOWN: u64 = 1u64 << 9;

pub const LINE_FLAG_BIAS_DISABLED: u64 = 1u64 << 10;

pub const LINE_FLAG_EVENT_CLOCK_REALTIME: u64 = 1u64 << 11;

pub const LINE_FLAG_EVENT_CLOCK_HTE: u64 = 1u64 << 12;

// The attribute identifiers of a line-info attribute entry.
pub const LINE_ATTR_ID_FLAGS: u32 = 1;

pub const LINE_ATTR_ID_OUTPUT_VALUES: u32 = 2;

pub const LINE_ATTR_ID_DEBOUNCE: u32 = 3;

// The event identifiers of a line event record.
pub const LINE_EVENT_ID_RISING_EDGE: u32 = 1;

pub const LINE_EVENT_ID_FALLING_EDGE: u32 = 2;

/// Whether a byte run is all zeros.
pub open spec fn all_zero_bytes(s: Seq<u8>) -> bool {
    forall|i: int| 0 <= i < s.len() ==> s[i] == 0u8
}

/// Whether a run of 32-bit words is all zeros.
pub open spec fn all_zero_words(s: Seq<u32>) -> bool {
    forall|i: int| 0 <= i < s.len() ==> s[i] == 0u32
}

/// Build a zero-filled byte field of the given width.
pub fn zero_bytes(n: usize) -> (r: Vec<u8>)
    ensures
        r@.len() == n,
        all_zero_bytes(r@),
{
    let mut v: Vec<u8> = Vec::new();
    let mut i: usize = 0;
    while i < n
        invariant
            i <= n,
            v@.len() == i,
            forall|j: int| 0 <= j < i ==> v@[j] == 0u8,
        decreases n - i,
    {
        v.push(0);
        i += 1;
    }
    v
}

/// Build a zero-filled word field of the given width.
pub fn zero_words(n: usize) -> (r: Vec<u32>)
    ensures
        r@.len() == n,
        all_zero_words(r@),
{
    let mut v: Vec<u32> = Vec::new();
    let mut i: usize = 0;
    while i < n
        invariant
            i <= n,
            v@.len() == i,
            forall|j: int| 0 <= j < i ==> v@[j] == 0u32,
        decreases n - i,
    {
        v.push(0);
        i += 1;
    }
    v
}

/// One configurable attribute of a line: an identifier, the record's
/// explicit padding word, and the raw bits of the value union the
/// protocol overlays here.  Flag and output-value attributes use all 64
/// bits; a debounce period sits in the low 32.
#[derive(Debug, Clone, Copy, PartialEq, Eq, Structural)]
pub struct gpio_line_attribute {
    pub id: u32,
    pub padding: u32,
    pub value: u64,
}

impl gpio_line_attribute {
    pub fn zeroed() -> (r: Self)
        ensures
            r == (gpio_line_attribute { id: 0u32, padding: 0u32, value: 0u64 }),
    {
        gpio_line_attribute { id: 0, padding: 0, value: 0 }
    }
}

/// An attribute together with the bitmap of request lines it applies to.
#[derive(Debug, Clone, Copy, PartialEq, Eq, Structural)]
pub struct gpio_line_config_attribute {
    pub attr: gpio_line_attribute,
    pub mask: u64,
}

/// The configuration block of a line request: base flags and a bounded
/// attribute list.
#[derive(Debug, Clone)]
pub struct gpio_line_config {
    pub flags: u64,
    pub num_attrs: u32,
    pub padding: Vec<u32>,
    pub attrs: Vec<gpio_line_config_attribute>,
}

impl gpio_line_config {
    /// The fixed field widths of the wire layout.
    pub open spec fn wf(&self) -> bool {
        self.padding@.len() == 5 && self.attrs@.len() == GPIO_LINE_NUM_ATTRS_MAX
    }

    pub fn zeroed() -> (r: Self)
        ensures
            r.wf(),
            r.flags == 0,
            r.num_attrs == 0,
            all_zero_words(r.padding@),
            forall|i: int|
                0 <= i < GPIO_LINE_NUM_ATTRS_MAX ==> r.attrs@[i] == (gpio_line_config_attribute {
                    attr: gpio_line_attribute { id: 0u32, padding: 0u32, value: 0u64 },
                    mask: 0u64,
                }),
    {
        let mut attrs: Vec<gpio_line_config_attribute> = Vec::new();
        let mut i: usize = 0;
        while i < GPIO_LINE_NUM_ATTRS_MAX
            invariant
                i <= GPIO_LINE_NUM_ATTRS_MAX,
                attrs@.len() == i,
                forall|j: int|
                    0 <= j < i ==> attrs@[j] == (gpio_line_config_attribute {
                        attr: gpio_line_attribute { id: 0u32, padding: 0u32, value: 0u64 },
                        mask: 0u64,
                    }),
            decreases GPIO_LINE_NUM_ATTRS_MAX - i,
        {
            attrs.push(
                gpio_line_config_attribute { attr: gpio_line_attribute::zeroed(), mask: 0 },
            );
            i += 1;
        }
        gpio_line_config { flags: 0, num_attrs: 0, padding: zero_words(5), attrs }
    }
}

/// A whole line request as handed to the kernel: the offsets, the
/// consumer label, the configuration, and the descriptor field the
/// kernel fills in.
#[derive(Debug, Clone)]
pub struct gpio_line_request {
    pub offsets: Vec<u32>,
    pub consumer: Vec<u8>,
    pub config: gpio_line_config,
    pub num_lines: u32,
    pub event_buffer_size: u32,
    pub padding: Vec<u32>,
    pub fd: i32,
}

impl gpio_line_request {
    /// The fixed field widths of the wire layout.
    pub open spec fn wf(&self) -> bool {
        &&& self.offsets@.len() == GPIO_LINES_MAX
        &&& self.consumer@.len() == GPIO_MAX_NAME_SIZE
        &&& self.config.wf()
        &&& self.padding@.len() == 5
    }

    pub fn zeroed() -> (r: Self)
        ensures
            r.wf(),
            all_zero_words(r.offsets@),
            all_zero_bytes(r.consumer@),
            r.config.flags == 0,
            r.config.num_attrs == 0,
            all_zero_words(r.config.padding@),
            forall|i: int|
                0 <= i < GPIO_LINE_NUM_ATTRS_MAX ==> r.config.attrs@[i] == (
                gpio_line_config_attribute {
                    attr: gpio_line_attribute { id: 0u32, padding: 0u32, value: 0u64 },
                    mask: 0u64,
                }),
            r.num_lines == 0,
            r.event_buffer_size == 0,
            all_zero_words(r.padding@),
            r.fd == 0,
    {
        gpio_line_request {
            offsets: zero_words(GPIO_LINES_MAX),
            consumer: zero_bytes(GPIO_MAX_NAME_SIZE),
            config: gpio_line_config::zeroed(),
            num_lines: 0,
            event_buffer_size: 0,
            padding: zero_words(5),
            fd: 0,
        }
    }
}

/// A line-info record as the kernel fills it.
#[derive(Debug, Clone)]
pub struct gpio_line_info {
    pub name: Vec<u8>,
    pub consumer: Vec<u8>,
    pub offset: u32,
    pub num_attrs: u32,
    pub flags: u64,
    pub attrs: Vec<gpio_line_attribute>,
    pub padding: Vec<u32>,
}

impl gpio_line_info {
    /// The fixed field widths of the wire layout.
    pub open spec fn wf(&self) -> bool {
        &&& self.name@.len() == GPIO_MAX_NAME_SIZE
        &&& self.consumer@.len() == GPIO_MAX_NAME_SIZE
        &&& self.attrs@.len() == GPIO_LINE_NUM_ATTRS_MAX
        &&& self.padding@.len() == 4
    }

    pub fn zeroed() -> (r: Self)
        ensures
            r.wf(),
            all_zero_bytes(r.name@),
            all_zero_bytes(r.consumer@),
            r.offset == 0,
            r.num_attrs == 0,
            r.flags == 0,
            forall|i: int|
                0 <= i < GPIO_LINE_NUM_ATTRS_MAX ==> r.attrs@[i] == (gpio_line_attribute {
                    id: 0u32,
                    padding: 0u32,
                    value: 0u64,
                }),
            all_zero_words(r.padding@),
    {
        let mut attrs: Vec<gpio_line_attribute> = Vec::new();
        let mut i: usize = 0;
        while i < GPIO_LINE_NUM_ATTRS_MAX
            invariant
                i <= GPIO_LINE_NUM_ATTRS_MAX,
                attrs@.len() == i,
                forall|j: int|
                    0 <= j < i ==> attrs@[j] == (gpio_line_attribute {
                        id: 0u32,
                        padding: 0u32,
                        value: 0u64,
                    }),
            decreases GPIO_LINE_NUM_ATTRS_MAX - i,
        {
            attrs.push(gpio_line_attribute::zeroed());
            i += 1;
        }
        gpio_line_info {
            name: zero_bytes(GPIO_MAX_NAME_SIZE),
            consumer: zero_bytes(GPIO_MAX_NAME_SIZE),
            offset: 0,
            num_attrs: 0,
            flags: 0,
            attrs,
            padding: zero_words(4),
        }
    }
}

/// The batched value-exchange block: one bit per requested line in each
/// of the two words.
#[derive(Debug, Clone, Copy, PartialEq, Eq, Structural)]
pub struct gpio_line_values {
    pub bits: u64,
    pub mask: u64,
}

/// One edge event as read from an acquired line descriptor.
#[derive(Debug, Clone)]
pub struct gpio_line_event {
    pub timestamp_ns: u64,
    pub id: u32,
    pub offset: u32,
    pub seqno: u32,
    pub line_seqno: u32,
    pub padding: Vec<u32>,
}

/// The size in bytes of one encoded line event record.
pub const GPIO_LINE_EVENT_SIZE: usize = 48;

impl gpio_line_event {
    /// The fixed field widths of the wire layout.
    pub open spec fn wf(&self) -> bool {
        self.padding@.len() == 6
    }

    pub fn zeroed() -> (r: Self)
        ensures
            r.wf(),
            r.timestamp_ns == 0,
            r.id == 0,
            r.offset == 0,
            r.seqno == 0,
            r.line_seqno == 0,
            all_zero_words(r.padding@),
    {
        gpio_line_event {
            timestamp_ns: 0,
            id: 0,
            offset: 0,
            seqno: 0,
            line_seqno: 0,
            padding: zero_words(6),
        }
    }

    /// Decode one event record from a complete fixed-size buffer, fields
    /// in wire order, little-endian.
    pub fn from_bytes(bytes: &[u8]) -> (r: Self)
        requires
            bytes@.len() == GPIO_LINE_EVENT_SIZE,
        ensures
            r.wf(),
            r.timestamp_ns == vstd::bytes::spec_u64_from_le_bytes(bytes@.subrange(0, 8)),
            r.id == vstd::bytes::spec_u32_from_le_bytes(bytes@.subrange(8, 12)),
            r.offset == vstd::bytes::spec_u32_from_le_bytes(bytes@.subrange(12, 16)),
            r.seqno == vstd::bytes::spec_u32_from_le_bytes(bytes@.subrange(16, 20)),
            r.line_seqno == vstd::bytes::spec_u32_from_le_bytes(bytes@.subrange(20, 24)),
            all_zero_words(r.padding@),
    {
        let timestamp_ns = vstd::bytes::u64_from_le_bytes(vstd::slice::slice_subrange(bytes, 0, 8));
        let id = vstd::bytes::u32_from_le_bytes(vstd::slice::slice_subrange(bytes, 8, 12));
        let offset = vstd::bytes::u32_from_le_bytes(vstd::slice::slice_subrange(bytes, 12, 16));
        let seqno = vstd::bytes::u32_from_le_bytes(vstd::slice::slice_subrange(bytes, 16, 20));
        let line_seqno = vstd::bytes::u32_from_le_bytes(vstd::slice::slice_subrange(bytes, 20, 24));
        gpio_line_event { timestamp_ns, id, offset, seqno, line_seqno, padding: zero_words(6) }
    }
}

} // verus!
