use vstd::prelude::*;
use vstd::slice::slice_index_get;

use crate::errors::Error;
use crate::line::values::nth_bit;
use crate::uapi::v2::GPIO_LINES_MAX;

verus! {

broadcast use vstd::seq_lib::group_seq_properties;

// The set's storage is heapless's fixed-capacity vector, declared here so
// that values of it can stand in fields; everything the crate knows about
// its behaviour is stated on the small wrappers below, each over a single
// method of the vector.
#[verifier::external_type_specification]
#[verifier::external_body]
#[verifier::reject_recursive_types(T)]
pub struct ExHeaplessVec<T, const N: usize>(heapless::Vec<T, N>);

/// The offsets a backing vector holds, in storage order.
pub uninterp spec fn hv_seq(v: heapless::Vec<u32, 64>) -> Seq<u32>;

/// Relies on heapless::Vec::new: a fresh vector is empty.
#[verifier::external_body]
fn hv_new() -> (r: heapless::Vec<u32, 64>)
    ensures
        hv_seq(r) == Seq::<u32>::empty(),
{
    heapless::Vec::new()
}

/// Relies on heapless::Vec::len.
#[verifier::external_body]
fn hv_len(v: &heapless::Vec<u32, 64>) -> (r: usize)
    ensures
        r == hv_seq(*v).len(),
{
    v.len()
}

/// Relies on slice indexing through heapless::Vec::as_slice.
#[verifier::external_body]
fn hv_get(v: &heapless::Vec<u32, 64>, i: usize) -> (r: u32)
    requires
        i < hv_seq(*v).len(),
    ensures
        r == hv_seq(*v)[i as int],
{
    v.as_slice()[i]
}

/// Relies on heapless::Vec::push: appends while below capacity, and hands
/// the item back untouched once full.
#[verifier::external_body]
fn hv_push(v: &mut heapless::Vec<u32, 64>, x: u32) -> (ok: bool)
    ensures
        ok == (hv_seq(*old(v)).len() < 64),
        ok ==> hv_seq(*final (v)) == hv_seq(*old(v)).push(x),
        !ok ==> hv_seq(*final (v)) == hv_seq(*old(v)),
{
    v.push(x).is_ok()
}

/// Relies on heapless::Vec::insert: shifts the tail right by one; fails
/// only when the vector is full.  Panics on an index past the end, which
/// the precondition rules out.
#[verifier::external_body]
fn hv_insert(v: &mut heapless::Vec<u32, 64>, i: usize, x: u32) -> (ok: bool)
    requires
        i <= hv_seq(*old(v)).len(),
    ensures
        ok == (hv_seq(*old(v)).len() < 64),
        ok ==> hv_seq(*final (v)) == hv_seq(*old(v)).insert(i as int, x),
        !ok ==> hv_seq(*final (v)) == hv_seq(*old(v)),
{
    v.insert(i, x).is_ok()
}

/// Relies on heapless::Vec::remove: takes the item at `i` out, shifting
/// the tail left.  Panics on an index past the end, which the
/// precondition rules out.
#[verifier::external_body]
fn hv_remove(v: &mut heapless::Vec<u32, 64>, i: usize) -> (r: u32)
    requires
        i < hv_seq(*old(v)).len(),
    ensures
        r == hv_seq(*old(v))[i as int],
        hv_seq(*final (v)) == hv_seq(*old(v)).remove(i as int),
{
    v.remove(i)
}

/// Relies on heapless::Vec::clear.
#[verifier::external_body]
fn hv_clear(v: &mut heapless::Vec<u32, 64>)
    ensures
        hv_seq(*final (v)) == Seq::<u32>::empty(),
{
    v.clear()
}

/// Strictly ascending order; it carries duplicate-freedom with it.
pub open spec fn strictly_sorted(s: Seq<u32>) -> bool {
    forall|i: int, j: int| 0 <= i < j < s.len() ==> s[i] < s[j]
}

/// Ascending order with duplicates allowed.
pub open spec fn sorted_nondec(s: Seq<u32>) -> bool {
    forall|i: int, j: int| 0 <= i < j < s.len() ==> s[i] <= s[j]
}

/// Sort a run of offsets ascending, duplicates kept: each element is
/// inserted at the first position that fits it.
fn sort_offsets(v: &[u32]) -> (r: Vec<u32>)
    ensures
        sorted_nondec(r@),
        r@.len() == v@.len(),
        forall|x: u32| r@.contains(x) <==> v@.contains(x),
{
    let n = v.len();
    let mut out: Vec<u32> = Vec::new();
    let mut i: usize = 0;
    while i < n
        invariant
            n == v@.len(),
            i <= n,
            out@.len() == i,
            sorted_nondec(out@),
            forall|x: u32| out@.contains(x) <==> v@.take(i as int).contains(x),
        decreases n - i,
    {
        let x = *slice_index_get(v, i);
        let mut lo: usize = 0;
        let mut hi: usize = out.len();
        while lo < hi
            invariant
                lo <= hi <= out@.len(),
                sorted_nondec(out@),
                forall|k: int| 0 <= k < lo ==> out@[k] < x,
                forall|k: int| hi <= k < out@.len() ==> out@[k] >= x,
            decreases hi - lo,
        {
            let mid = lo + (hi - lo) / 2;
            if out[mid] < x {
                lo = mid + 1;
            } else {
                hi = mid;
            }
        }
        let ghost pre = out@;
        out.insert(lo, x);
        proof {
            let s = out@;
            assert(s == pre.insert(lo as int, x));
            assert(sorted_nondec(s)) by {
                assert forall|a: int, b: int| 0 <= a < b < s.len() implies s[a] <= s[b] by {
                    if b < lo {
                    } else if a >= lo + 1 {
                        assert(s[a] == pre[a - 1] && s[b] == pre[b - 1]);
                    } else if b == lo {
                        assert(s[b] == x && s[a] == pre[a]);
                    } else if a == lo {
                        assert(s[a] == x && s[b] == pre[b - 1]);
                    } else {
                        assert(s[a] == pre[a] && s[b] == pre[b - 1]);
                        assert(pre[a] < x && x <= pre[b - 1]);
                    }
                }
            }
            assert(v@.take(i + 1) =~= v@.take(i as int).push(x));
            assert forall|y: u32| s.contains(y) <==> v@.take(i + 1).contains(y) by {
                if s.contains(y) {
                    let k = choose|k: int| 0 <= k < s.len() && s[k] == y;
                    if k < lo {
                        assert(pre[k] == y);
                        assert(pre.contains(y));
                    } else if k == lo {
                    } else {
                        assert(pre[k - 1] == y);
                        assert(pre.contains(y));
                    }
                }
                if v@.take(i + 1).contains(y) {
                    if pre.contains(y) {
                        let k = choose|k: int| 0 <= k < pre.len() && pre[k] == y;
                        if k < lo {
                            assert(s[k] == y);
                        } else {
                            assert(s[k + 1] == y);
                        }
                        assert(s.contains(y));
                    } else {
                        assert(y == x);
                        assert(s[lo as int] == y);
                        assert(s.contains(y));
                    }
                }
            }
        }
        i += 1;
    }
    proof {
        assert(v@.take(n as int) =~= v@);
    }
    out
}

/// Remove adjacent duplicates from a sorted run, in one left-to-right
/// compaction pass.
fn dedup_sorted(v: &Vec<u32>) -> (r: Vec<u32>)
    requires
        sorted_nondec(v@),
    ensures
        strictly_sorted(r@),
        r@.len() <= v@.len(),
        forall|x: u32| r@.contains(x) <==> v@.contains(x),
{
    let n = v.len();
    let mut out: Vec<u32> = Vec::new();
    let mut i: usize = 0;
    while i < n
        invariant
            n == v@.len(),
            sorted_nondec(v@),
            i <= n,
            out@.len() <= i,
            strictly_sorted(out@),
            forall|x: u32| out@.contains(x) <==> v@.take(i as int).contains(x),
            out@.len() > 0 ==> i > 0 && out@.last() == v@[i - 1],
        decreases n - i,
    {
        let x = v[i];
        let keep: bool = if out.len() == 0 {
            true
        } else {
            out[out.len() - 1] != x
        };
        let ghost pre = out@;
        if keep {
            out.push(x);
            proof {
                assert(out@ == pre.push(x));
                assert(strictly_sorted(out@)) by {
                    assert forall|a: int, b: int|
                        0 <= a < b < out@.len() implies out@[a] < out@[b] by {
                        if b == out@.len() - 1 && pre.len() > 0 {
                            assert(pre[a] <= pre[pre.len() - 1]);
                            assert(v@[i - 1] <= v@[i as int]);
                        }
                    }
                }
            }
        } else {
            proof {
                assert(pre.contains(x)) by {
                    assert(pre[pre.len() - 1] == x);
                }
            }
        }
        proof {
            assert(v@.take(i + 1) =~= v@.take(i as int).push(x));
        }
        i += 1;
    }
    proof {
        assert(v@.take(n as int) =~= v@);
    }
    out
}

/// Two strictly sorted sequences with the same members are the same
/// sequence.
pub proof fn lemma_sorted_unique_seqs_equal(a: Seq<u32>, b: Seq<u32>)
    requires
        strictly_sorted(a),
        strictly_sorted(b),
        forall|x: u32| a.contains(x) <==> b.contains(x),
    ensures
        a == b,
    decreases a.len(),
{
    if a.len() == 0 {
        if b.len() > 0 {
            assert(b.contains(b[0]));
        }
        assert(a =~= b);
    } else {
        assert(a.contains(a[0]));
        assert(b.contains(b[0]));
        let ia = choose|i: int| 0 <= i < b.len() && b[i] == a[0];
        let ib = choose|i: int| 0 <= i < a.len() && a[i] == b[0];
        assert(b[0] <= b[ia]);
        assert(a[0] <= a[ib]);
        assert(a[0] == b[0]);
        let at = a.drop_first();
        let bt = b.drop_first();
        assert forall|x: u32| at.contains(x) implies bt.contains(x) by {
            let i = choose|i: int| 0 <= i < at.len() && at[i] == x;
            assert(a[i + 1] == x);
            assert(a.contains(x));
            let j = choose|j: int| 0 <= j < b.len() && b[j] == x;
            assert(b[0] < x) by { assert(a[0] < a[i + 1]); }
            assert(j != 0);
            assert(bt[j - 1] == x);
        }
        assert forall|x: u32| bt.contains(x) implies at.contains(x) by {
            let i = choose|i: int| 0 <= i < bt.len() && bt[i] == x;
            assert(b[i + 1] == x);
            assert(b.contains(x));
            let j = choose|j: int| 0 <= j < a.len() && a[j] == x;
            assert(a[0] < x) by { assert(b[0] < b[i + 1]); }
            assert(j != 0);
            assert(at[j - 1] == x);
        }
        lemma_sorted_unique_seqs_equal(at, bt);
        assert(a.len() == b.len());
        assert forall|i: int| 0 <= i < a.len() implies a[i] == b[i] by {
            if i > 0 {
                assert(a[i] == at[i - 1]);
                assert(b[i] == bt[i - 1]);
            }
        }
        assert(a =~= b);
    }
}

/// A strictly sorted sequence has as many members as its set of members.
pub proof fn lemma_sorted_seq_cardinality(s: Seq<u32>)
    requires
        strictly_sorted(s),
    ensures
        s.to_set().finite(),
        s.to_set().len() == s.len(),
{
    assert(s.no_duplicates());
    s.unique_seq_to_set();
}

/// A sorted, duplicate-free set of line offsets, bounded by the
/// protocol's maximum number of lines per request.
#[derive(Debug)]
pub struct LineSet {
    v: heapless::Vec<u32, 64>,
}

impl View for LineSet {
    type V = Seq<u32>;

    closed spec fn view(&self) -> Seq<u32> {
        hv_seq(self.v)
    }
}

impl LineSet {
    /// The invariant every operation preserves: strictly ascending order
    /// and the protocol bound on the length.
    pub open spec fn wf(&self) -> bool {
        strictly_sorted(self@) && self@.len() <= GPIO_LINES_MAX
    }

    pub fn empty() -> (r: LineSet)
        ensures
            r@ == Seq::<u32>::empty(),
            r.wf(),
    {
        LineSet { v: hv_new() }
    }

    /// The protocol bound the set enforces.
    pub fn capacity(&self) -> (r: usize)
        ensures
            r == GPIO_LINES_MAX,
    {
        GPIO_LINES_MAX
    }

    pub fn len(&self) -> (r: usize)
        ensures
            r == self@.len(),
    {
        hv_len(&self.v)
    }

    pub fn is_empty(&self) -> (r: bool)
        ensures
            r == (self@.len() == 0),
    {
        self.len() == 0
    }

    /// The offset stored at `idx`, or `None` past the end.
    pub fn get_offset(&self, idx: usize) -> (r: Option<u32>)
        ensures
            r == (if idx < self@.len() {
                Some(self@[idx as int])
            } else {
                None::<u32>
            }),
    {
        if idx < self.len() {
            Some(hv_get(&self.v, idx))
        } else {
            None
        }
    }

    /// Binary search for `offset`: whether it is present, and the index
    /// where it sits or would be inserted.
    fn search(&self, offset: u32) -> (r: (bool, usize))
        requires
            self.wf(),
        ensures
            r.1 <= self@.len(),
            forall|k: int| 0 <= k < r.1 ==> self@[k] < offset,
            forall|k: int| r.1 <= k < self@.len() ==> self@[k] >= offset,
            r.0 == self@.contains(offset),
            r.0 ==> r.1 < self@.len() && self@[r.1 as int] == offset,
    {
        let mut lo: usize = 0;
        let mut hi: usize = self.len();
        while lo < hi
            invariant
                self.wf(),
                lo <= hi <= self@.len(),
                forall|k: int| 0 <= k < lo ==> self@[k] < offset,
                forall|k: int| hi <= k < self@.len() ==> self@[k] >= offset,
            decreases hi - lo,
        {
            let mid = lo + (hi - lo) / 2;
            let x = hv_get(&self.v, mid);
            if x < offset {
                lo = mid + 1;
            } else {
                hi = mid;
            }
        }
        if lo < self.len() && hv_get(&self.v, lo) == offset {
            assert(self@.contains(offset));
            (true, lo)
        } else {
            assert(!self@.contains(offset)) by {
                if self@.contains(offset) {
                    let i = choose|i: int| 0 <= i < self@.len() && self@[i] == offset;
                }
            }
            (false, lo)
        }
    }

    /// The index of `offset` within the set, or `None` when absent.
    pub fn find_idx(&self, offset: u32) -> (r: Option<usize>)
        requires
            self.wf(),
        ensures
            r is Some <==> self@.contains(offset),
            r is Some ==> r->0 < self@.len() && self@[r->0 as int] == offset,
    {
        let (found, idx) = self.search(offset);
        if found {
            Some(idx)
        } else {
            None
        }
    }

    /// Insert a single offset, keeping the order; fails on a duplicate or
    /// on a full set, leaving the set untouched.
    pub fn add_offset(&mut self, offset: u32) -> (r: Result<(), Error>)
        requires
            old(self).wf(),
        ensures
            final (self).wf(),
            r is Ok <==> !old(self)@.contains(offset) && old(self)@.len() < GPIO_LINES_MAX,
            old(self)@.contains(offset) ==> r == Err::<(), Error>(Error::AlreadyExists),
            !old(self)@.contains(offset) && old(self)@.len() >= GPIO_LINES_MAX ==> r == Err::<
                (),
                Error,
            >(Error::CapacityExceeded),
            r is Ok ==> final (self)@.len() == old(self)@.len() + 1,
            r is Ok ==> forall|x: u32|
                final (self)@.contains(x) <==> (old(self)@.contains(x) || x == offset),
            r is Err ==> final (self)@ == old(self)@,
    {
        let (found, idx) = self.search(offset);
        if found {
            return Err(Error::AlreadyExists);
        }
        let ghost pre = self@;
        let ok = hv_insert(&mut self.v, idx, offset);
        if !ok {
            return Err(Error::CapacityExceeded);
        }
        proof {
            let s = self@;
            assert(s == pre.insert(idx as int, offset));
            assert(strictly_sorted(s)) by {
                assert forall|i: int, j: int| 0 <= i < j < s.len() implies s[i] < s[j] by {
                    if j < idx {
                    } else if i >= idx + 1 {
                        assert(s[i] == pre[i - 1] && s[j] == pre[j - 1]);
                    } else if j == idx {
                        assert(s[j] == offset && s[i] == pre[i]);
                    } else if i == idx {
                        assert(s[i] == offset && s[j] == pre[j - 1]);
                    } else {
                        assert(s[i] == pre[i] && s[j] == pre[j - 1]);
                        assert(pre[i] < offset && offset <= pre[j - 1]);
                    }
                }
            }
            assert forall|x: u32| s.contains(x) <==> (pre.contains(x) || x == offset) by {
                if s.contains(x) {
                    let i = choose|i: int| 0 <= i < s.len() && s[i] == x;
                    if i < idx {
                        assert(pre[i] == x);
                        assert(pre.contains(x));
                    } else if i == idx {
                    } else {
                        assert(pre[i - 1] == x);
                        assert(pre.contains(x));
                    }
                }
                if pre.contains(x) {
                    let i = choose|i: int| 0 <= i < pre.len() && pre[i] == x;
                    if i < idx {
                        assert(s[i] == x);
                    } else {
                        assert(s[i + 1] == x);
                    }
                    assert(s.contains(x));
                }
                if x == offset {
                    assert(s[idx as int] == x);
                    assert(s.contains(x));
                }
            }
        }
        Ok(())
    }

    /// Remove a single offset; fails when it is absent, leaving the set
    /// untouched.
    pub fn remove_offset(&mut self, offset: u32) -> (r: Result<(), Error>)
        requires
            old(self).wf(),
        ensures
            final (self).wf(),
            r is Ok <==> old(self)@.contains(offset),
            r is Err ==> r == Err::<(), Error>(Error::NotFound) && final (self)@ == old(self)@,
            r is Ok ==> final (self)@.len() + 1 == old(self)@.len(),
            r is Ok ==> forall|x: u32|
                final (self)@.contains(x) <==> (old(self)@.contains(x) && x != offset),
    {
        let (found, idx) = self.search(offset);
        if !found {
            return Err(Error::NotFound);
        }
        let ghost pre = self@;
        let _ = hv_remove(&mut self.v, idx);
        proof {
            let s = self@;
            assert(s == pre.remove(idx as int));
            assert forall|x: u32| s.contains(x) <==> (pre.contains(x) && x != offset) by {
                if s.contains(x) {
                    let i = choose|i: int| 0 <= i < s.len() && s[i] == x;
                    if i < idx {
                        assert(pre[i] == x);
                        assert(pre[i] < pre[idx as int]);
                    } else {
                        assert(pre[i + 1] == x);
                        assert(pre[idx as int] < pre[i + 1]);
                    }
                    assert(pre.contains(x));
                }
                if pre.contains(x) && x != offset {
                    let i = choose|i: int| 0 <= i < pre.len() && pre[i] == x;
                    if i < idx {
                        assert(s[i] == x);
                        assert(s.contains(x));
                    } else if i == idx {
                    } else {
                        assert(s[i - 1] == x);
                        assert(s.contains(x));
                    }
                }
            }
        }
        Ok(())
    }

    /// The stored offsets, in ascending order, as a plain vector.
    pub fn to_vec(&self) -> (r: Vec<u32>)
        ensures
            r@ == self@,
    {
        let n = self.len();
        let mut out: Vec<u32> = Vec::new();
        let mut i: usize = 0;
        while i < n
            invariant
                n == self@.len(),
                i <= n,
                out@ == self@.subrange(0, i as int),
            decreases n - i,
        {
            out.push(hv_get(&self.v, i));
            assert(out@ =~= self@.subrange(0, i + 1));
            i += 1;
        }
        assert(out@ =~= self@);
        out
    }

    /// Merge another set into this one: the sorted, deduplicated union of
    /// the two.  When the union would exceed the protocol bound nothing is
    /// changed and the whole operation fails.
    pub fn join(&mut self, other: LineSet) -> (r: Result<(), Error>)
        requires
            old(self).wf(),
            other.wf(),
        ensures
            final (self).wf(),
            r is Ok <==> (old(self)@.to_set() + other@.to_set()).len() <= GPIO_LINES_MAX,
            r is Ok ==> final (self)@.to_set() == old(self)@.to_set() + other@.to_set(),
            r is Ok ==> forall|x: u32|
                final (self)@.contains(x) <==> (old(self)@.contains(x) || other@.contains(x)),
            r is Err ==> r == Err::<(), Error>(Error::CapacityExceeded) && final (self)@ == old(
                self,
            )@,
    {
        let a = self.to_vec();
        let b = other.to_vec();
        let m = merge_sorted(&a, &b);
        proof {
            assert(m@.to_set() =~= old(self)@.to_set() + other@.to_set());
            lemma_sorted_seq_cardinality(m@);
        }
        if m.len() > GPIO_LINES_MAX {
            return Err(Error::CapacityExceeded);
        }
        hv_clear(&mut self.v);
        let n = m.len();
        let mut i: usize = 0;
        while i < n
            invariant
                n == m@.len() <= GPIO_LINES_MAX,
                i <= n,
                self@ == m@.take(i as int),
            decreases n - i,
        {
            let ok = hv_push(&mut self.v, m[i]);
            assert(ok);
            assert(self@ =~= m@.take(i + 1));
            i += 1;
        }
        assert(self@ =~= m@);
        Ok(())
    }

    /// Build a set from an arbitrary run of offsets: the input is bounded
    /// by the protocol maximum before any deduplication, then sorted and
    /// deduplicated.
    pub fn try_from_iter(offsets: &[u32]) -> (r: Result<LineSet, Error>)
        ensures
            r is Ok <==> offsets@.len() <= GPIO_LINES_MAX,
            r is Err ==> r == Err::<LineSet, Error>(Error::CapacityExceeded),
            r is Ok ==> r->Ok_0.wf() && (forall|x: u32|
                r->Ok_0@.contains(x) <==> offsets@.contains(x)),
    {
        if offsets.len() > GPIO_LINES_MAX {
            return Err(Error::CapacityExceeded);
        }
        let sorted = sort_offsets(offsets);
        let unique = dedup_sorted(&sorted);
        let n = unique.len();
        let mut s = LineSet::empty();
        let mut i: usize = 0;
        while i < n
            invariant
                n == unique@.len() <= GPIO_LINES_MAX,
                i <= n,
                s@ == unique@.take(i as int),
            decreases n - i,
        {
            let ok = hv_push(&mut s.v, unique[i]);
            assert(ok);
            assert(s@ =~= unique@.take(i + 1));
            i += 1;
        }
        proof {
            assert(s@ =~= unique@);
        }
        Ok(s)
    }

    /// Bound-check, sort and deduplicate a run of offsets, then merge it
    /// into this set; each of the two steps fails as it does on its own.
    pub fn try_extend(&mut self, offsets: &[u32]) -> (r: Result<(), Error>)
        requires
            old(self).wf(),
        ensures
            final (self).wf(),
            r is Ok <==> offsets@.len() <= GPIO_LINES_MAX && (old(self)@.to_set()
                + offsets@.to_set()).len() <= GPIO_LINES_MAX,
            r is Ok ==> final (self)@.to_set() == old(self)@.to_set() + offsets@.to_set(),
            r is Err ==> r == Err::<(), Error>(Error::CapacityExceeded) && final (self)@ == old(
                self,
            )@,
    {
        let other = match LineSet::try_from_iter(offsets) {
            Ok(o) => o,
            Err(e) => {
                return Err(e);
            },
        };
        proof {
            assert(other@.to_set() =~= offsets@.to_set());
        }
        let ghost oseq = other@;
        let r = self.join(other);
        proof {
            if r is Ok {
                assert(self@.to_set() == old(self)@.to_set() + oseq.to_set());
            }
        }
        r
    }

    /// The value-exchange mask for this set: one low bit per stored line.
    pub fn mask(&self) -> (r: u64)
        requires
            self.wf(),
        ensures
            forall|i: u64| i < 64 ==> (#[trigger] nth_bit(r, i) <==> (i as int) < self@.len()),
    {
        let n = self.len();
        let n64 = n as u64;
        proof {
            assert(n64 < 64 ==> (1u64 << n64) >= 1) by (bit_vector);
        }
        let r: u64 = if n64 >= 64 {
            u64::MAX
        } else {
            (1u64 << n64) - 1
        };
        proof {
            let rr = r;
            assert(forall|i: u64| i < 64 ==> ((#[trigger] (rr & (1u64 << i)) != 0) <==> i < n64))
                by (bit_vector)
                requires
                    n64 <= 64,
                    n64 < 64 ==> rr == ((1u64 << n64) - 1) as u64,
                    n64 >= 64 ==> rr == u64::MAX,
            ;
            assert forall|i: u64| i < 64 implies (#[trigger] nth_bit(r, i) <==> (i as int)
                < self@.len()) by {
                assert((rr & (1u64 << i)) != 0 <==> i < n64);
            }
        }
        r
    }

    /// Lower the set into the request layout: the line count and a fixed
    /// array of offsets, the unused tail zero-filled.
    pub fn to_api_v2(&self) -> (r: (u32, Vec<u32>))
        requires
            self.wf(),
        ensures
            r.0 == self@.len(),
            r.1@.len() == GPIO_LINES_MAX,
            forall|i: int| 0 <= i < self@.len() ==> r.1@[i] == self@[i],
            forall|i: int| self@.len() <= i < GPIO_LINES_MAX ==> r.1@[i] == 0u32,
    {
        let n = self.len();
        let mut lines: Vec<u32> = Vec::new();
        let mut i: usize = 0;
        while i < n
            invariant
                n == self@.len() <= GPIO_LINES_MAX,
                i <= n,
                lines@.len() == i,
                forall|k: int| 0 <= k < i ==> lines@[k] == self@[k],
            decreases n - i,
        {
            lines.push(hv_get(&self.v, i));
            i += 1;
        }
        while i < GPIO_LINES_MAX
            invariant
                n == self@.len(),
                n <= i <= GPIO_LINES_MAX,
                lines@.len() == i,
                forall|k: int| 0 <= k < n ==> lines@[k] == self@[k],
                forall|k: int| n <= k < i ==> lines@[k] == 0u32,
            decreases GPIO_LINES_MAX - i,
        {
            lines.push(0);
            i += 1;
        }
        (n as u32, lines)
    }

    /// A borrowed view of this set.
    pub fn as_set_ref(&self) -> (r: LineSetRef<'_>)
        ensures
            r@ == self@,
    {
        LineSetRef { set: self }
    }
}

/// Merge two strictly sorted vectors into their sorted union in one
/// left-to-right pass: equal heads are emitted once, the smaller head is
/// emitted and the other retained, and an exhausted side lets the other
/// drain.
fn merge_sorted(a: &Vec<u32>, b: &Vec<u32>) -> (r: Vec<u32>)
    requires
        strictly_sorted(a@),
        strictly_sorted(b@),
    ensures
        strictly_sorted(r@),
        forall|x: u32| r@.contains(x) <==> (a@.contains(x) || b@.contains(x)),
{
    let mut out: Vec<u32> = Vec::new();
    let mut ai: usize = 0;
    let mut bi: usize = 0;
    while ai < a.len() || bi < b.len()
        invariant
            strictly_sorted(a@),
            strictly_sorted(b@),
            ai <= a@.len(),
            bi <= b@.len(),
            strictly_sorted(out@),
            forall|x: u32|
                out@.contains(x) <==> (a@.take(ai as int).contains(x) || b@.take(
                    bi as int,
                ).contains(x)),
            out@.len() > 0 && ai < a@.len() ==> out@.last() < a@[ai as int],
            out@.len() > 0 && bi < b@.len() ==> out@.last() < b@[bi as int],
        decreases a@.len() + b@.len() - ai - bi,
    {
        let ghost out0 = out@;
        let ghost ai0 = ai as int;
        let ghost bi0 = bi as int;
        let next: u32;
        if ai < a.len() && (bi >= b.len() || a[ai] <= b[bi]) {
            next = a[ai];
            if bi < b.len() && b[bi] == next {
                bi += 1;
                proof {
                    assert(b@.take(bi0 + 1) =~= b@.take(bi0).push(next));
                }
            }
            ai += 1;
            proof {
                assert(a@.take(ai0 + 1) =~= a@.take(ai0).push(next));
            }
        } else {
            next = b[bi];
            bi += 1;
            proof {
                assert(b@.take(bi0 + 1) =~= b@.take(bi0).push(next));
            }
        }
        out.push(next);
        proof {
            assert(out@ == out0.push(next));
            assert(strictly_sorted(out@)) by {
                assert forall|i: int, j: int| 0 <= i < j < out@.len() implies out@[i] < out@[j] by {
                    if j == out@.len() - 1 {
                        if i < out0.len() - 1 {
                            assert(out0[i] < out0[out0.len() - 1]);
                        }
                    }
                }
            }
        }
    }
    proof {
        assert(a@.take(a@.len() as int) =~= a@);
        assert(b@.take(b@.len() as int) =~= b@);
    }
    out
}

/// A borrowed view of a [`LineSet`], usable without taking ownership.
pub struct LineSetRef<'a> {
    set: &'a LineSet,
}

impl<'a> View for LineSetRef<'a> {
    type V = Seq<u32>;

    closed spec fn view(&self) -> Seq<u32> {
        self.set@
    }
}

impl<'a> LineSetRef<'a> {
    pub open spec fn wf(&self) -> bool {
        strictly_sorted(self@) && self@.len() <= GPIO_LINES_MAX
    }

    pub fn len(&self) -> (r: usize)
        ensures
            r == self@.len(),
    {
        self.set.len()
    }

    /// The offset stored at `idx`, or `None` past the end.
    pub fn get_offset(&self, idx: usize) -> (r: Option<u32>)
        ensures
            r == (if idx < self@.len() {
                Some(self@[idx as int])
            } else {
                None::<u32>
            }),
    {
        self.set.get_offset(idx)
    }

    /// The index of `offset` within the set, or `None` when absent.
    pub fn find_idx(&self, offset: u32) -> (r: Option<usize>)
        requires
            self.wf(),
        ensures
            r is Some <==> self@.contains(offset),
            r is Some ==> r->0 < self@.len() && self@[r->0 as int] == offset,
    {
        self.set.find_idx(offset)
    }

    /// The value-exchange mask for this set: one low bit per stored line.
    pub fn mask(&self) -> (r: u64)
        requires
            self.wf(),
        ensures
            forall|i: u64| i < 64 ==> (#[trigger] nth_bit(r, i) <==> (i as int) < self@.len()),
    {
        self.set.mask()
    }

    /// Lower the set into the request layout: the line count and a fixed
    /// array of offsets, the unused tail zero-filled.
    pub fn to_api_v2(&self) -> (r: (u32, Vec<u32>))
        requires
            self.wf(),
        ensures
            r.0 == self@.len(),
            r.1@.len() == GPIO_LINES_MAX,
            forall|i: int| 0 <= i < self@.len() ==> r.1@[i] == self@[i],
            forall|i: int| self@.len() <= i < GPIO_LINES_MAX ==> r.1@[i] == 0u32,
    {
        self.set.to_api_v2()
    }
}

/// The position of `x` within a strictly sorted sequence that contains
/// it.
pub open spec fn idx_in(s: Seq<u32>, x: u32) -> int {
    choose|i: int| 0 <= i < s.len() && s[i] == x
}

/// In a strictly sorted sequence every member sits at exactly one
/// position, and `idx_in` names it.
pub proof fn lemma_idx_in(s: Seq<u32>, i: int, x: u32)
    requires
        strictly_sorted(s),
        0 <= i < s.len(),
        s[i] == x,
    ensures
        idx_in(s, x) == i,
{
    let j = idx_in(s, x);
    assert(0 <= j < s.len() && s[j] == x);
    if i < j {
        assert(s[i] < s[j]);
    }
    if j < i {
        assert(s[j] < s[i]);
    }
}

/// Inserting an absent offset and then removing that same offset restores
/// the set's contents exactly; the two hypotheses about membership are the
/// stated outcomes of a successful insert and remove.
pub proof fn lemma_insert_remove_round_trip(s0: Seq<u32>, s1: Seq<u32>, s2: Seq<u32>, offset: u32)
    requires
        strictly_sorted(s0),
        strictly_sorted(s1),
        strictly_sorted(s2),
        !s0.contains(offset),
        forall|x: u32| s1.contains(x) <==> (s0.contains(x) || x == offset),
        forall|x: u32| s2.contains(x) <==> (s1.contains(x) && x != offset),
    ensures
        s2 == s0,
{
    lemma_sorted_unique_seqs_equal(s2, s0);
}

} // verus!
