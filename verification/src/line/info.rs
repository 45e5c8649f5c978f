use vstd::prelude::*;
use vstd::utf8::decode_utf8;

use crate::errors::Error;
use crate::fixed_str::{fixed_decodable, nul_prefix, FixedStr};
use crate::line::options::{Debounce, Direction};
use crate::line::values::{nth_bit, MaskedBits};
use crate::uapi::v2::{
    gpio_line_attribute, gpio_line_info, zero_words, GPIO_LINE_NUM_ATTRS_MAX, LINE_ATTR_ID_DEBOUNCE,
    LINE_ATTR_ID_FLAGS, LINE_ATTR_ID_OUTPUT_VALUES, LINE_FLAG_ACTIVE_LOW, LINE_FLAG_OPEN_DRAIN,
    LINE_FLAG_OPEN_SOURCE, LINE_FLAG_OUTPUT, LINE_FLAG_USED,
};

verus! {

/// The auxiliary attributes of a line-info record, folded into one
/// value: an optional flag override, optional output values, and an
/// optional debounce period.  When present they take precedence over the
/// record's base flags.
#[derive(Debug, Clone, Copy, PartialEq)]
pub struct LineAttributes {
    pub flags: Option<u64>,
    pub values: Option<MaskedBits>,
    pub debounce: Option<Debounce>,
}

/// One decoded attribute entry of a line-info record.
#[derive(Debug, Clone, Copy, PartialEq)]
pub enum LineAttribute {
    Flags(u64),
    Values(MaskedBits),
    /// The debounce period, in microseconds.
    Debounce(Debounce),
}

impl LineAttribute {
    /// Decode one wire attribute entry; an identifier this reader does
    /// not know fails with `Unsupported`.
    pub fn new_v2(attr: gpio_line_attribute) -> (r: Result<Self, Error>)
        ensures
            r == (if attr.id == LINE_ATTR_ID_FLAGS {
                Ok::<LineAttribute, Error>(LineAttribute::Flags(attr.value))
            } else if attr.id == LINE_ATTR_ID_OUTPUT_VALUES {
                Ok::<LineAttribute, Error>(
                    LineAttribute::Values(MaskedBits { bits: attr.value, mask: u64::MAX }),
                )
            } else if attr.id == LINE_ATTR_ID_DEBOUNCE {
                Ok::<LineAttribute, Error>(
                    LineAttribute::Debounce(Debounce { micros: attr.value as u32 }),
                )
            } else {
                Err::<LineAttribute, Error>(Error::Unsupported)
            }),
    {
        if attr.id == LINE_ATTR_ID_FLAGS {
            Ok(LineAttribute::Flags(attr.value))
        } else if attr.id == LINE_ATTR_ID_OUTPUT_VALUES {
            Ok(LineAttribute::Values(MaskedBits { bits: attr.value, mask: u64::MAX }))
        } else if attr.id == LINE_ATTR_ID_DEBOUNCE {
            Ok(LineAttribute::Debounce(Debounce::new_micros(#[verifier::truncate] (attr.value
                as u32))))
        } else {
            Err(Error::Unsupported)
        }
    }

    /// Encode one attribute entry back into its wire form.
    pub fn into_v2(self) -> (r: gpio_line_attribute)
        ensures
            r == spec_attr_into_v2(self),
    {
        match self {
            LineAttribute::Flags(flags) => gpio_line_attribute {
                id: LINE_ATTR_ID_FLAGS,
                padding: 0,
                value: flags,
            },
            LineAttribute::Values(v) => gpio_line_attribute {
                id: LINE_ATTR_ID_OUTPUT_VALUES,
                padding: 0,
                value: v.bits,
            },
            LineAttribute::Debounce(d) => gpio_line_attribute {
                id: LINE_ATTR_ID_DEBOUNCE,
                padding: 0,
                value: d.micros as u64,
            },
        }
    }
}

/// The wire form of one decoded attribute.
pub open spec fn spec_attr_into_v2(a: LineAttribute) -> gpio_line_attribute {
    match a {
        LineAttribute::Flags(flags) => gpio_line_attribute {
            id: LINE_ATTR_ID_FLAGS,
            padding: 0u32,
            value: flags,
        },
        LineAttribute::Values(v) => gpio_line_attribute {
            id: LINE_ATTR_ID_OUTPUT_VALUES,
            padding: 0u32,
            value: v.bits,
        },
        LineAttribute::Debounce(d) => gpio_line_attribute {
            id: LINE_ATTR_ID_DEBOUNCE,
            padding: 0u32,
            value: d.micros as u64,
        },
    }
}

/// The attribute record with nothing set.
pub open spec fn spec_empty_attrs() -> LineAttributes {
    LineAttributes { flags: None, values: None, debounce: None }
}

/// One step of the attribute fold: repeated flag attributes union, a
/// values or debounce entry replaces an earlier one, and an unknown
/// identifier fails the decode.
pub open spec fn spec_apply_attr(acc: LineAttributes, a: gpio_line_attribute) -> Result<
    LineAttributes,
    Error,
> {
    if a.id == LINE_ATTR_ID_FLAGS {
        Ok(
            LineAttributes {
                flags: Some(
                    match acc.flags {
                        Some(f) => f | a.value,
                        None => a.value,
                    },
                ),
                ..acc
            },
        )
    } else if a.id == LINE_ATTR_ID_OUTPUT_VALUES {
        Ok(LineAttributes { values: Some(MaskedBits { bits: a.value, mask: u64::MAX }), ..acc })
    } else if a.id == LINE_ATTR_ID_DEBOUNCE {
        Ok(LineAttributes { debounce: Some(Debounce { micros: a.value as u32 }), ..acc })
    } else {
        Err(Error::Unsupported)
    }
}

/// The left-to-right fold of the first `n` attribute entries.
pub open spec fn spec_fold_attrs(attrs: Seq<gpio_line_attribute>, n: int) -> Result<
    LineAttributes,
    Error,
>
    decreases n,
{
    if n <= 0 {
        Ok(spec_empty_attrs())
    } else {
        match spec_fold_attrs(attrs, n - 1) {
            Ok(acc) => spec_apply_attr(acc, attrs[n - 1]),
            Err(e) => Err(e),
        }
    }
}

/// How many attribute entries of a record are read: its count, capped at
/// the fixed list width.
pub open spec fn spec_attr_count(n: u32) -> int {
    if n <= GPIO_LINE_NUM_ATTRS_MAX {
        n as int
    } else {
        GPIO_LINE_NUM_ATTRS_MAX as int
    }
}

/// Once the fold has failed it stays failed, whatever follows.
proof fn lemma_fold_attrs_err(attrs: Seq<gpio_line_attribute>, i: int, n: int)
    requires
        0 <= i <= n,
        spec_fold_attrs(attrs, i) is Err,
    ensures
        spec_fold_attrs(attrs, n) == spec_fold_attrs(attrs, i),
    decreases n - i,
{
    if i < n {
        lemma_fold_attrs_err(attrs, i, n - 1);
    }
}

impl LineAttributes {
    /// Fold a record's attribute entries, left to right.  The kernel is
    /// not expected to emit duplicates, but a duplicate must not derail
    /// the decode: repeated flag entries union, and a later values or
    /// debounce entry replaces an earlier one.
    pub fn from_attr_list(n_attrs: usize, attrs: &Vec<gpio_line_attribute>) -> (r: Result<
        LineAttributes,
        Error,
    >)
        requires
            attrs@.len() == GPIO_LINE_NUM_ATTRS_MAX,
        ensures
            n_attrs <= u32::MAX ==> r == spec_fold_attrs(attrs@, spec_attr_count(n_attrs as u32)),
    {
        let n = if n_attrs < GPIO_LINE_NUM_ATTRS_MAX {
            n_attrs
        } else {
            GPIO_LINE_NUM_ATTRS_MAX
        };
        let mut acc = LineAttributes { flags: None, values: None, debounce: None };
        let mut k: usize = 0;
        while k < n
            invariant
                n <= GPIO_LINE_NUM_ATTRS_MAX,
                attrs@.len() == GPIO_LINE_NUM_ATTRS_MAX,
                k <= n,
                n_attrs <= u32::MAX ==> n as int == spec_attr_count(n_attrs as u32),
                spec_fold_attrs(attrs@, k as int) == Ok::<LineAttributes, Error>(acc),
            decreases n - k,
        {
            let a = attrs[k];
            proof {
                assert(spec_fold_attrs(attrs@, k + 1) == spec_apply_attr(acc, attrs@[k as int]));
            }
            if a.id == LINE_ATTR_ID_FLAGS {
                let f = match acc.flags {
                    Some(f) => f | a.value,
                    None => a.value,
                };
                acc = LineAttributes { flags: Some(f), ..acc };
            } else if a.id == LINE_ATTR_ID_OUTPUT_VALUES {
                acc = LineAttributes {
                    values: Some(MaskedBits { bits: a.value, mask: u64::MAX }),
                    ..acc
                };
            } else if a.id == LINE_ATTR_ID_DEBOUNCE {
                acc = LineAttributes {
                    debounce: Some(Debounce::new_micros(#[verifier::truncate] (a.value as u32))),
                    ..acc
                };
            } else {
                proof {
                    lemma_fold_attrs_err(attrs@, k + 1, n as int);
                }
                return Err(Error::Unsupported);
            }
            k += 1;
        }
        Ok(acc)
    }
}

/// The attribute entries a record's encoding carries: the debounce
/// period, then the output values.  A flag override is not re-encoded;
/// it is folded into the record's base flags instead.
pub open spec fn spec_attr_list(a: LineAttributes) -> Seq<gpio_line_attribute> {
    (match a.debounce {
        Some(d) => seq![spec_attr_into_v2(LineAttribute::Debounce(d))],
        None => Seq::<gpio_line_attribute>::empty(),
    }) + (match a.values {
        Some(v) => seq![spec_attr_into_v2(LineAttribute::Values(v))],
        None => Seq::<gpio_line_attribute>::empty(),
    })
}

/// A snapshot of a line's kernel-reported state.
#[derive(Debug, Clone)]
pub struct LineInfo {
    name: FixedStr,
    consumer: FixedStr,
    offset: u32,
    flags: u64,
    attrs: LineAttributes,
}

/// The flags a record exposes: the override attribute when present,
/// else the base flags.
pub open spec fn spec_effective_flags(info: LineInfo) -> u64 {
    match info.spec_attrs().flags {
        Some(f) => f,
        None => info.spec_base_flags(),
    }
}

/// Whether `w` is the wire image of `info`: the name fields carry the
/// raw padded buffers, the flag override is folded into the base flags,
/// and the attribute list holds exactly the encoded entries, zero-padded.
pub open spec fn spec_encodes(info: LineInfo, w: gpio_line_info) -> bool {
    &&& w.name@ == info.spec_name().spec_raw()
    &&& w.consumer@ == info.spec_consumer().spec_raw()
    &&& w.offset == info.spec_offset()
    &&& w.flags == spec_effective_flags(info)
    &&& w.num_attrs == spec_attr_list(info.spec_attrs()).len()
    &&& w.attrs@.len() == GPIO_LINE_NUM_ATTRS_MAX
    &&& (forall|i: int|
        0 <= i < spec_attr_list(info.spec_attrs()).len() ==> w.attrs@[i] == spec_attr_list(
            info.spec_attrs(),
        )[i])
}

/// Whether a wire record decodes at all: both name fields are
/// well-formed and every attribute entry is understood.
pub open spec fn spec_decodable(w: gpio_line_info) -> bool {
    &&& fixed_decodable(w.name@)
    &&& fixed_decodable(w.consumer@)
    &&& spec_fold_attrs(w.attrs@, spec_attr_count(w.num_attrs)) is Ok
}

/// Whether `d` is the decoding of `w`.
pub open spec fn spec_decoded(w: gpio_line_info, d: LineInfo) -> bool {
    &&& d.spec_name().spec_raw() == w.name@
    &&& d.spec_consumer().spec_raw() == w.consumer@
    &&& d.spec_offset() == w.offset
    &&& d.spec_base_flags() == w.flags
    &&& Ok::<LineAttributes, Error>(d.spec_attrs()) == spec_fold_attrs(
        w.attrs@,
        spec_attr_count(w.num_attrs),
    )
}

impl LineInfo {
    pub closed spec fn spec_name(&self) -> FixedStr {
        self.name
    }

    pub closed spec fn spec_consumer(&self) -> FixedStr {
        self.consumer
    }

    pub closed spec fn spec_offset(&self) -> u32 {
        self.offset
    }

    /// The base flags, before any override attribute.
    pub closed spec fn spec_base_flags(&self) -> u64 {
        self.flags
    }

    pub closed spec fn spec_attrs(&self) -> LineAttributes {
        self.attrs
    }

    pub open spec fn wf(&self) -> bool {
        self.spec_name().wf() && self.spec_consumer().wf()
    }

    /// A record with nothing set.
    pub fn empty() -> (r: Self)
        ensures
            r.wf(),
            r.spec_name()@ == Seq::<u8>::empty(),
            r.spec_consumer()@ == Seq::<u8>::empty(),
            r.spec_offset() == 0,
            r.spec_base_flags() == 0,
            r.spec_attrs() == spec_empty_attrs(),
    {
        LineInfo {
            name: FixedStr::empty(),
            consumer: FixedStr::empty(),
            offset: 0,
            flags: 0,
            attrs: LineAttributes { flags: None, values: None, debounce: None },
        }
    }

    /// The record that asks the kernel about one line.
    pub fn new_get(offset: u32) -> (r: Self)
        ensures
            r.wf(),
            r.spec_name()@ == Seq::<u8>::empty(),
            r.spec_consumer()@ == Seq::<u8>::empty(),
            r.spec_offset() == offset,
            r.spec_base_flags() == 0,
            r.spec_attrs() == spec_empty_attrs(),
    {
        LineInfo {
            name: FixedStr::empty(),
            consumer: FixedStr::empty(),
            offset,
            flags: 0,
            attrs: LineAttributes { flags: None, values: None, debounce: None },
        }
    }

    /// Decode a line-info record from its wire form.
    pub fn from_v2(info: gpio_line_info) -> (r: Result<Self, Error>)
        requires
            info.wf(),
        ensures
            r is Ok <==> spec_decodable(info),
            r is Ok ==> r->Ok_0.wf() && spec_decoded(info, r->Ok_0),
            !fixed_decodable(info.name@) ==> r == Err::<LineInfo, Error>(Error::Malformed),
            fixed_decodable(info.name@) && !fixed_decodable(info.consumer@) ==> r == Err::<
                LineInfo,
                Error,
            >(Error::Malformed),
            fixed_decodable(info.name@) && fixed_decodable(info.consumer@) && spec_fold_attrs(
                info.attrs@,
                spec_attr_count(info.num_attrs),
            ) is Err ==> r == Err::<LineInfo, Error>(
                spec_fold_attrs(info.attrs@, spec_attr_count(info.num_attrs))->Err_0,
            ),
    {
        let gpio_line_info { name, consumer, offset, num_attrs, flags, attrs, padding: _ } = info;
        let name = match FixedStr::from_byte_array(name) {
            Ok(n) => n,
            Err(_) => {
                return Err(Error::Malformed);
            },
        };
        let consumer = match FixedStr::from_byte_array(consumer) {
            Ok(c) => c,
            Err(_) => {
                return Err(Error::Malformed);
            },
        };
        let attrs = match LineAttributes::from_attr_list(num_attrs as usize, &attrs) {
            Ok(a) => a,
            Err(e) => {
                return Err(e);
            },
        };
        Ok(LineInfo { name, consumer, offset, flags, attrs })
    }

    /// Encode the record back into its wire form.
    pub fn into_v2(self) -> (r: gpio_line_info)
        requires
            self.wf(),
        ensures
            r.wf(),
            spec_encodes(self, r),
            forall|i: int|
                spec_attr_list(self.spec_attrs()).len() <= i < GPIO_LINE_NUM_ATTRS_MAX
                    ==> r.attrs@[i] == (gpio_line_attribute { id: 0u32, padding: 0u32, value: 0u64 }),
            crate::uapi::v2::all_zero_words(r.padding@),
    {
        let LineInfo { name, consumer, offset, flags, attrs } = self;
        let ghost target = spec_attr_list(attrs);
        let mut entries: Vec<gpio_line_attribute> = Vec::new();
        if let Some(d) = attrs.debounce {
            entries.push(LineAttribute::Debounce(d).into_v2());
        }
        if let Some(v) = attrs.values {
            entries.push(LineAttribute::Values(v).into_v2());
        }
        proof {
            assert(entries@ =~= target);
        }
        let num_attrs = entries.len() as u32;
        let mut i = entries.len();
        while i < GPIO_LINE_NUM_ATTRS_MAX
            invariant
                target.len() <= i <= GPIO_LINE_NUM_ATTRS_MAX,
                entries@.len() == i,
                entries@.take(target.len() as int) == target,
                forall|j: int|
                    target.len() <= j < i ==> entries@[j] == (gpio_line_attribute {
                        id: 0u32,
                        padding: 0u32,
                        value: 0u64,
                    }),
            decreases GPIO_LINE_NUM_ATTRS_MAX - i,
        {
            entries.push(gpio_line_attribute::zeroed());
            proof {
                assert(entries@.take(target.len() as int) =~= target);
            }
            i += 1;
        }
        let base_flags = match attrs.flags {
            Some(f) => f,
            None => flags,
        };
        gpio_line_info {
            name: name.into_byte_array(),
            consumer: consumer.into_byte_array(),
            offset,
            num_attrs,
            flags: base_flags,
            attrs: entries,
            padding: zero_words(4),
        }
    }

    /// The line's name, when the kernel reported one.
    pub fn name(&self) -> (r: Option<String>)
        requires
            self.wf(),
        ensures
            r is Some <==> self.spec_name()@.len() > 0,
            r is Some ==> r->0@ == decode_utf8(self.spec_name()@),
    {
        if self.name.is_empty() {
            None
        } else {
            Some(self.name.as_text())
        }
    }

    /// The consumer label, when some user of the line has set one.
    pub fn consumer(&self) -> (r: Option<String>)
        requires
            self.wf(),
        ensures
            r is Some <==> self.spec_consumer()@.len() > 0,
            r is Some ==> r->0@ == decode_utf8(self.spec_consumer()@),
    {
        if self.consumer.is_empty() {
            None
        } else {
            Some(self.consumer.as_text())
        }
    }

    /// The offset of the line on its controller.
    pub fn line_offset(&self) -> (r: u32)
        ensures
            r == self.spec_offset(),
    {
        self.offset
    }

    /// The flags in force: the override attribute when present, else the
    /// base flags.
    pub fn flags(&self) -> (r: u64)
        ensures
            r == spec_effective_flags(*self),
    {
        match self.attrs.flags {
            Some(f) => f,
            None => self.flags,
        }
    }

    /// The debounce period, when one is configured.
    pub fn debounce(&self) -> (r: Option<Debounce>)
        ensures
            r == self.spec_attrs().debounce,
    {
        self.attrs.debounce
    }

    /// The output value of the line at the lowest index, when an
    /// output-values attribute covers it.
    pub fn value(&self) -> (r: Option<bool>)
        ensures
            r == (match self.spec_attrs().values {
                Some(v) => if nth_bit(v.mask, 0) {
                    Some(nth_bit(v.bits, 0))
                } else {
                    None::<bool>
                },
                None => None::<bool>,
            }),
    {
        match &self.attrs.values {
            Some(v) => v.get(0),
            None => None,
        }
    }

    /// The direction of the line: an output when the base flags say so,
    /// else an input.
    pub fn direction(&self) -> (r: Direction)
        ensures
            r == (if self.spec_base_flags() & LINE_FLAG_OUTPUT != 0 {
                Direction::Output
            } else {
                Direction::Input
            }),
    {
        if self.flags & LINE_FLAG_OUTPUT != 0 {
            Direction::Output
        } else {
            Direction::Input
        }
    }

    /// Whether some consumer holds the line.
    pub fn is_used(&self) -> (r: bool)
        ensures
            r == (self.spec_base_flags() & LINE_FLAG_USED != 0),
    {
        self.flags & LINE_FLAG_USED != 0
    }

    /// Whether the kernel reports the line as active-low.
    pub fn is_active_low(&self) -> (r: bool)
        ensures
            r == (self.spec_base_flags() & LINE_FLAG_ACTIVE_LOW != 0),
    {
        self.flags & LINE_FLAG_ACTIVE_LOW != 0
    }

    /// Whether the kernel reports the line as open drain.
    pub fn is_open_drain(&self) -> (r: bool)
        ensures
            r == (self.spec_base_flags() & LINE_FLAG_OPEN_DRAIN != 0),
    {
        self.flags & LINE_FLAG_OPEN_DRAIN != 0
    }

    /// Whether the kernel reports the line as open source.
    pub fn is_open_source(&self) -> (r: bool)
        ensures
            r == (self.spec_base_flags() & LINE_FLAG_OPEN_SOURCE != 0),
    {
        self.flags & LINE_FLAG_OPEN_SOURCE != 0
    }
}

/// Encoding a record and then decoding the result restores it, for any
/// record the wire can carry faithfully: one with no flag-override
/// attribute (encoding folds that into the base flags) and whose
/// output-values attribute, if any, covers all lines (the wire stores
/// only the value bits).
pub proof fn lemma_info_round_trip(info: LineInfo, w: gpio_line_info, d: LineInfo)
    requires
        info.wf(),
        info.spec_attrs().flags is None,
        info.spec_attrs().values is Some ==> info.spec_attrs().values->0.mask == u64::MAX,
        spec_encodes(info, w),
    ensures
        spec_decodable(w),
        spec_decoded(w, d) ==> {
            &&& d.spec_name()@ == info.spec_name()@
            &&& d.spec_consumer()@ == info.spec_consumer()@
            &&& d.spec_offset() == info.spec_offset()
            &&& d.spec_base_flags() == info.spec_base_flags()
            &&& d.spec_attrs() == info.spec_attrs()
        },
{
    let list = spec_attr_list(info.spec_attrs());
    let n = spec_attr_count(w.num_attrs);
    assert(list.len() <= 2);
    assert(n == list.len());
    let fold = spec_fold_attrs(w.attrs@, n);
    assert(spec_fold_attrs(w.attrs@, 0) == Ok::<LineAttributes, Error>(spec_empty_attrs()));
    assert(fold == Ok::<LineAttributes, Error>(info.spec_attrs())) by {
        match info.spec_attrs().debounce {
            Some(dd) => {
                let step1 = LineAttributes { flags: None, values: None, debounce: Some(dd) };
                assert(w.attrs@[0] == spec_attr_into_v2(LineAttribute::Debounce(dd)));
                assert(dd.micros as u64 as u32 == dd.micros);
                assert(spec_apply_attr(spec_empty_attrs(), w.attrs@[0]) == Ok::<
                    LineAttributes,
                    Error,
                >(step1));
                assert(spec_fold_attrs(w.attrs@, 1) == Ok::<LineAttributes, Error>(step1));
                match info.spec_attrs().values {
                    Some(vv) => {
                        assert(w.attrs@[1] == spec_attr_into_v2(LineAttribute::Values(vv)));
                        assert(vv.mask == u64::MAX);
                        assert((MaskedBits { bits: vv.bits, mask: u64::MAX }) == vv);
                        assert(spec_apply_attr(step1, w.attrs@[1]) == Ok::<LineAttributes, Error>(
                            info.spec_attrs(),
                        ));
                        assert(spec_fold_attrs(w.attrs@, 2) == Ok::<LineAttributes, Error>(
                            info.spec_attrs(),
                        ));
                    },
                    None => {
                        assert(step1 == info.spec_attrs());
                    },
                }
            },
            None => {
                match info.spec_attrs().values {
                    Some(vv) => {
                        assert(w.attrs@[0] == spec_attr_into_v2(LineAttribute::Values(vv)));
                        assert(vv.mask == u64::MAX);
                        assert((MaskedBits { bits: vv.bits, mask: u64::MAX }) == vv);
                        assert(spec_apply_attr(spec_empty_attrs(), w.attrs@[0]) == Ok::<
                            LineAttributes,
                            Error,
                        >(info.spec_attrs()));
                        assert(spec_fold_attrs(w.attrs@, 1) == Ok::<LineAttributes, Error>(
                            info.spec_attrs(),
                        ));
                    },
                    None => {
                        assert(spec_empty_attrs() == info.spec_attrs());
                    },
                }
            },
        }
    }
    assert(fixed_decodable(w.name@)) by {
        assert(w.name@ == info.spec_name().spec_raw());
    }
    assert(fixed_decodable(w.consumer@));
}

} // verus!
