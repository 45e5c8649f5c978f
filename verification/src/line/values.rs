use vstd::prelude::*;
use vstd::slice::slice_index_get;

use crate::errors::Error;
use crate::line::set::{idx_in, lemma_idx_in, LineSet, LineSetRef};

verus! {

/// The logical state of a single line, after active-low translation.
#[derive(Debug, Clone, Copy, PartialEq, Eq, Structural)]
pub enum LineValue {
    Active,
    Inactive,
}

impl LineValue {
    pub fn new(is_active: bool) -> (r: Self)
        ensures
            r == (if is_active {
                LineValue::Active
            } else {
                LineValue::Inactive
            }),
    {
        if is_active {
            Self::Active
        } else {
            Self::Inactive
        }
    }

    pub fn is_active(&self) -> (r: bool)
        ensures
            r == (*self == LineValue::Active),
    {
        matches!(self, LineValue::Active)
    }
}

/// Whether bit `i` of `x` is set; meaningful for `i < 64`.
pub open spec fn nth_bit(x: u64, i: u64) -> bool {
    x & (1u64 << i) != 0
}

/// The number of set bits of `x` below position `n`.
pub open spec fn count_bits_below(x: u64, n: int) -> int
    decreases n,
{
    if n <= 0 {
        0
    } else {
        count_bits_below(x, n - 1) + if nth_bit(x, (n - 1) as u64) {
            1int
        } else {
            0int
        }
    }
}

/// The `(index, value)` pairs a masked value exposes for indices below `n`,
/// in ascending index order.
pub open spec fn masked_pairs_below(bits: u64, mask: u64, n: int) -> Seq<(usize, bool)>
    decreases n,
{
    if n <= 0 {
        Seq::empty()
    } else {
        let rest = masked_pairs_below(bits, mask, n - 1);
        if nth_bit(mask, (n - 1) as u64) {
            rest.push((((n - 1) as usize), nth_bit(bits, (n - 1) as u64)))
        } else {
            rest
        }
    }
}

/// Two masked values may merge exactly when they agree on every bit
/// position that both masks cover.
pub open spec fn merge_compatible(a: MaskedBits, b: MaskedBits) -> bool {
    (a.bits & a.mask & b.mask) == (b.bits & b.mask & a.mask)
}

/// The merge of two compatible masked values: the union of the masks, and
/// the union of the mask-qualified value projections.
pub open spec fn merged(a: MaskedBits, b: MaskedBits) -> MaskedBits {
    MaskedBits { bits: (a.bits & a.mask) | (b.bits & b.mask), mask: a.mask | b.mask }
}

/// Up to 64 independent boolean values, each either set, clear, or absent.
///
/// Bit `i` of `mask` says whether bit `i` of `bits` is meaningful; a bit of
/// `bits` outside the mask carries no information, and every reader must
/// ignore it.
#[derive(Debug, Clone, Copy)]
pub struct MaskedBits {
    pub bits: u64,
    pub mask: u64,
}

impl PartialEq for MaskedBits {
    /// Masked values compare by what they expose: bits outside the mask do
    /// not take part.
    fn eq(&self, other: &Self) -> (r: bool) {
        (self.bits & self.mask) == (other.bits & other.mask) && self.mask == other.mask
    }
}

impl vstd::std_specs::cmp::PartialEqSpecImpl for MaskedBits {
    open spec fn obeys_eq_spec() -> bool {
        true
    }

    open spec fn eq_spec(&self, other: &Self) -> bool {
        (self.bits & self.mask) == (other.bits & other.mask) && self.mask == other.mask
    }
}

impl MaskedBits {
    pub fn new(bits: u64, mask: u64) -> (r: Self)
        ensures
            r == (MaskedBits { bits, mask }),
    {
        Self { bits, mask }
    }

    /// A value with no meaningful bit.
    pub fn empty() -> (r: Self)
        ensures
            r == (MaskedBits { bits: 0u64, mask: 0u64 }),
    {
        MaskedBits { bits: 0, mask: 0 }
    }

    /// All 64 bits meaningful, all carrying `set`.
    pub fn all(set: bool) -> (r: Self)
        ensures
            r.mask == u64::MAX,
            r.bits == (if set {
                u64::MAX
            } else {
                0u64
            }),
    {
        if set {
            MaskedBits { bits: u64::MAX, mask: u64::MAX }
        } else {
            MaskedBits { bits: 0, mask: u64::MAX }
        }
    }

    /// The mask-qualified value projection.
    pub fn bits(&self) -> (r: u64)
        ensures
            r == self.bits & self.mask,
    {
        self.bits & self.mask
    }

    pub fn mask(&self) -> (r: u64)
        ensures
            r == self.mask,
    {
        self.mask
    }

    /// How many bits are meaningful.
    pub fn len(&self) -> (r: usize)
        ensures
            r == count_bits_below(self.mask, 64),
    {
        let mut count: usize = 0;
        let mut i: usize = 0;
        while i < 64
            invariant
                i <= 64,
                count == count_bits_below(self.mask, i as int),
                count <= i,
            decreases 64 - i,
        {
            if self.mask & (1u64 << i) != 0 {
                count += 1;
            }
            i += 1;
        }
        count
    }

    pub fn is_empty(&self) -> (r: bool)
        ensures
            r == (self.mask == 0),
    {
        self.mask == 0
    }

    /// The value at `bit`, or `None` when the mask does not cover it.
    pub fn get(&self, bit: usize) -> (r: Option<bool>)
        requires
            bit < 64,
        ensures
            r == (if nth_bit(self.mask, bit as u64) {
                Some(nth_bit(self.bits, bit as u64))
            } else {
                None::<bool>
            }),
    {
        let b: u64 = 1u64 << bit;
        if self.mask & b > 0 {
            Some(self.bits & b > 0)
        } else {
            None
        }
    }

    pub fn with_bit_set(self, bit: usize) -> (r: Self)
        requires
            bit < 64,
        ensures
            r.bits == self.bits | (1u64 << bit as u64),
            r.mask == self.mask | (1u64 << bit as u64),
    {
        let b: u64 = 1u64 << bit;
        Self { bits: self.bits | b, mask: self.mask | b }
    }

    pub fn with_bit_cleared(self, bit: usize) -> (r: Self)
        requires
            bit < 64,
        ensures
            r.bits == self.bits & !(1u64 << bit as u64),
            r.mask == self.mask | (1u64 << bit as u64),
    {
        let b: u64 = 1u64 << bit;
        Self { bits: self.bits & !b, mask: self.mask | b }
    }

    pub fn with_bit(self, bit: usize, value: bool) -> (r: Self)
        requires
            bit < 64,
        ensures
            r.bits == (if value {
                self.bits | (1u64 << bit as u64)
            } else {
                self.bits & !(1u64 << bit as u64)
            }),
            r.mask == self.mask | (1u64 << bit as u64),
    {
        if value {
            self.with_bit_set(bit)
        } else {
            self.with_bit_cleared(bit)
        }
    }

    pub fn set_bit_value(&mut self, bit: usize, value: bool)
        requires
            bit < 64,
        ensures
            final (self).bits == (if value {
                old(self).bits | (1u64 << bit as u64)
            } else {
                old(self).bits & !(1u64 << bit as u64)
            }),
            final (self).mask == old(self).mask | (1u64 << bit as u64),
    {
        if value {
            self.set_bit(bit);
        } else {
            self.clear_bit(bit);
        }
    }

    pub fn set_bit(&mut self, bit: usize)
        requires
            bit < 64,
        ensures
            final (self).bits == old(self).bits | (1u64 << bit as u64),
            final (self).mask == old(self).mask | (1u64 << bit as u64),
    {
        let b: u64 = 1u64 << bit;
        self.bits = self.bits | b;
        self.mask = self.mask | b;
    }

    pub fn clear_bit(&mut self, bit: usize)
        requires
            bit < 64,
        ensures
            final (self).bits == old(self).bits & !(1u64 << bit as u64),
            final (self).mask == old(self).mask | (1u64 << bit as u64),
    {
        let b: u64 = 1u64 << bit;
        self.bits = self.bits & !b;
        self.mask = self.mask | b;
    }

    /// Every meaningful `(index, value)` pair, in ascending index order.
    ///
    /// The sequence is rebuilt from the stored bits on every call.
    pub fn iter(&self) -> (r: Vec<(usize, bool)>)
        ensures
            r@ == masked_pairs_below(self.bits, self.mask, 64),
    {
        let mut out: Vec<(usize, bool)> = Vec::new();
        let mut i: usize = 0;
        while i < 64
            invariant
                i <= 64,
                out@ == masked_pairs_below(self.bits, self.mask, i as int),
            decreases 64 - i,
        {
            let b: u64 = 1u64 << i;
            if self.mask & b > 0 {
                out.push((i, self.bits & b > 0));
            }
            i += 1;
        }
        out
    }

    /// Merge two masked values, failing on any disagreement under the
    /// overlap of the two masks.
    pub fn try_merge(&self, other: MaskedBits) -> (r: Result<MaskedBits, Error>)
        ensures
            r is Ok <==> merge_compatible(*self, other),
            r is Ok ==> r->Ok_0 == merged(*self, other),
            r is Err ==> r->Err_0 == Error::Conflict,
    {
        let s_bits = self.bits & self.mask;
        let o_bits = other.bits & other.mask;
        if (s_bits & other.mask) != (o_bits & self.mask) {
            Err(Error::Conflict)
        } else {
            Ok(Self { bits: s_bits | o_bits, mask: self.mask | other.mask })
        }
    }
}

/// The masked value that a run of `(offset, value)` pairs writes into a
/// set of lines, applied left to right: each pair lands at its offset's
/// position within the set, a later pair overriding an earlier one.
pub open spec fn spec_pairs_values(offs: Seq<u32>, pairs: Seq<(u32, bool)>, n: int) -> MaskedBits
    decreases n,
{
    if n <= 0 {
        MaskedBits { bits: 0u64, mask: 0u64 }
    } else {
        let acc = spec_pairs_values(offs, pairs, n - 1);
        let b = 1u64 << (idx_in(offs, pairs[n - 1].0) as u64);
        if pairs[n - 1].1 {
            MaskedBits { bits: acc.bits | b, mask: acc.mask | b }
        } else {
            MaskedBits { bits: acc.bits & !b, mask: acc.mask | b }
        }
    }
}

/// Build the masked value that writes the given `(offset, value)` pairs
/// across a set of lines.  Every offset must be a member of the set;
/// one that is not fails the whole construction.
pub fn values_from_pairs(pairs: &[(u32, bool)], lines: &LineSet) -> (r: Result<MaskedBits, Error>)
    requires
        lines.wf(),
    ensures
        r is Ok <==> (forall|k: int|
            0 <= k < pairs@.len() ==> lines@.contains(#[trigger] pairs@[k].0)),
        r is Ok ==> r->Ok_0 == spec_pairs_values(lines@, pairs@, pairs@.len() as int),
        r is Err ==> r->Err_0 == Error::NotFound,
{
    let n = pairs.len();
    let mut acc = MaskedBits::empty();
    let mut k: usize = 0;
    while k < n
        invariant
            n == pairs@.len(),
            k <= n,
            lines.wf(),
            forall|j: int| 0 <= j < k ==> lines@.contains(#[trigger] pairs@[j].0),
            acc == spec_pairs_values(lines@, pairs@, k as int),
        decreases n - k,
    {
        let (offset, value) = *slice_index_get(pairs, k);
        match lines.find_idx(offset) {
            Some(idx) => {
                proof {
                    lemma_idx_in(lines@, idx as int, offset);
                }
                acc.set_bit_value(idx, value);
            },
            None => {
                return Err(Error::NotFound);
            },
        }
        k += 1;
    }
    Ok(acc)
}

/// The masked value that writes one boolean to every line of a set: the
/// mask covers exactly the held lines, and the bits are all of them or
/// none.
pub fn values_for_all(lines: &LineSet, active: bool) -> (r: MaskedBits)
    requires
        lines.wf(),
    ensures
        forall|i: u64| i < 64 ==> (#[trigger] nth_bit(r.mask, i) <==> (i as int) < lines@.len()),
        r.bits == (if active {
            r.mask
        } else {
            0u64
        }),
{
    let mask = lines.mask();
    let bits = if active {
        mask
    } else {
        0
    };
    MaskedBits { bits, mask }
}

/// The `(offset, logical value)` pairs a masked value exposes over a set
/// of lines, for positions below `n`, ascending.
pub open spec fn spec_value_pairs(offs: Seq<u32>, v: MaskedBits, n: int) -> Seq<(u32, LineValue)>
    decreases n,
{
    if n <= 0 {
        Seq::empty()
    } else {
        let rest = spec_value_pairs(offs, v, n - 1);
        if nth_bit(v.mask, (n - 1) as u64) {
            rest.push(
                (
                    offs[n - 1],
                    if nth_bit(v.bits, (n - 1) as u64) {
                        LineValue::Active
                    } else {
                        LineValue::Inactive
                    },
                ),
            )
        } else {
            rest
        }
    }
}

/// A borrowed pairing of an offset set with the masked value read from
/// or written to its lines.
pub struct LineValuesRef<'a> {
    pub offsets: LineSetRef<'a>,
    pub values: MaskedBits,
}

impl<'a> LineValuesRef<'a> {
    /// Every line the value covers, with its logical state, in ascending
    /// offset order.
    pub fn iter(&self) -> (r: Vec<(u32, LineValue)>)
        requires
            self.offsets.wf(),
        ensures
            r@ == spec_value_pairs(self.offsets@, self.values, self.offsets@.len() as int),
    {
        let n = self.offsets.len();
        let mut out: Vec<(u32, LineValue)> = Vec::new();
        let mut i: usize = 0;
        while i < n
            invariant
                n == self.offsets@.len() <= 64,
                i <= n,
                self.offsets.wf(),
                out@ == spec_value_pairs(self.offsets@, self.values, i as int),
            decreases n - i,
        {
            match self.values.get(i) {
                Some(v) => {
                    let offset = match self.offsets.get_offset(i) {
                        Some(o) => o,
                        None => {
                            proof {
                                assert(false);
                            }
                            0
                        },
                    };
                    out.push((offset, LineValue::new(v)));
                },
                None => {},
            }
            i += 1;
        }
        out
    }
}

/// Merging is commutative: the two orders agree on success, and on
/// success they agree on the result.
pub proof fn lemma_merge_commutative(a: MaskedBits, b: MaskedBits)
    ensures
        merge_compatible(a, b) == merge_compatible(b, a),
        merge_compatible(a, b) ==> merged(a, b) == merged(b, a),
{
    let x = a.bits;
    let y = a.mask;
    let z = b.bits;
    let w = b.mask;
    assert(((x & y & w) == (z & w & y)) == ((z & w & y) == (x & y & w)) && ((x & y) | (z & w)) == ((
    z & w) | (x & y)) && (y | w) == (w | y)) by (bit_vector);
}

/// Merging is associative over pairwise compatible values: either
/// grouping succeeds, and both groupings produce the same value.
pub proof fn lemma_merge_associative(a: MaskedBits, b: MaskedBits, c: MaskedBits)
    requires
        merge_compatible(a, b),
        merge_compatible(a, c),
        merge_compatible(b, c),
    ensures
        merge_compatible(merged(a, b), c),
        merge_compatible(a, merged(b, c)),
        merged(merged(a, b), c) == merged(a, merged(b, c)),
{
    let xa = a.bits;
    let ma = a.mask;
    let xb = b.bits;
    let mb = b.mask;
    let xc = c.bits;
    let mc = c.mask;
    assert((((((xa & ma) | (xb & mb)) & (ma | mb)) & mc) == ((xc & mc) & (ma | mb))) && (((((xb
        & mb) | (xc & mc)) & (mb | mc)) & ma) == ((xa & ma) & (mb | mc))) && (((((xa & ma) | (xb
        & mb)) & (ma | mb)) | (xc & mc)) == ((xa & ma) | ((((xb & mb) | (xc & mc)) & (mb | mc)))))
        && (((ma | mb) | mc) == (ma | (mb | mc)))) by (bit_vector)
        requires
            (xa & ma & mb) == (xb & mb & ma),
            (xa & ma & mc) == (xc & mc & ma),
            (xb & mb & mc) == (xc & mc & mb),
    ;
}

} // verus!
