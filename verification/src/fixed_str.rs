use vstd::prelude::*;
use vstd::slice::{slice_index_get, slice_subrange, slice_to_vec};
use vstd::string::StringSliceAdditionalSpecFns;
use vstd::utf8::{decode_utf8, encode_utf8_valid_utf8, valid_first_scalar, valid_utf8,
    valid_utf8_concat, length_of_first_scalar, pop_first_scalar};

use crate::errors::Error;
use crate::uapi::v2::GPIO_MAX_NAME_SIZE;

verus! {

/// The failures of building or decoding a fixed-capacity string.
#[derive(Debug, Clone, Copy, PartialEq, Eq, Structural)]
pub enum FixedStrErr {
    /// The text needs more bytes than the fixed buffer holds.
    CapacityOverflow { capacity: usize, required: usize },
    /// The decoded bytes are not valid UTF-8.
    Utf8,
    /// A decoded buffer carries non-zero bytes after its first NUL.
    TrailingBytes,
    /// The text to store carries a NUL, which the NUL-padded buffer
    /// cannot represent.
    EmbeddedNul,
}

impl FixedStrErr {
    /// The corresponding failure of the crate's shared taxonomy.
    pub fn as_error(&self) -> (r: Error)
        ensures
            r == (if self is CapacityOverflow {
                Error::CapacityExceeded
            } else {
                Error::Malformed
            }),
    {
        match self {
            FixedStrErr::CapacityOverflow { .. } => Error::CapacityExceeded,
            _ => Error::Malformed,
        }
    }
}

/// The most text bytes a label may store: one byte of the fixed wire
/// field is reserved for its NUL terminator.  Decoding is wider: a
/// kernel-filled name field may legitimately use the whole width.
pub const FIXED_STR_MAX_LEN: usize = GPIO_MAX_NAME_SIZE - 1;

/// The index of the first NUL byte of `s`, or its length when none
/// occurs.
pub open spec fn first_nul(s: Seq<u8>) -> int
    decreases s.len(),
{
    if s.len() == 0 {
        0
    } else if s[0] == 0 {
        0
    } else {
        1 + first_nul(s.drop_first())
    }
}

/// The bytes of `s` before its first NUL.
pub open spec fn nul_prefix(s: Seq<u8>) -> Seq<u8> {
    s.take(first_nul(s))
}

/// Whether everything from the first NUL of `s` on is zero.
pub open spec fn tail_zeroed(s: Seq<u8>) -> bool {
    forall|i: int| first_nul(s) <= i < s.len() ==> s[i] == 0u8
}

/// Whether a fixed name field decodes: its text is valid UTF-8 and
/// nothing but zeros follows the first NUL.
pub open spec fn fixed_decodable(s: Seq<u8>) -> bool {
    valid_utf8(nul_prefix(s)) && tail_zeroed(s)
}

pub proof fn lemma_first_nul_bounds(s: Seq<u8>)
    ensures
        0 <= first_nul(s) <= s.len(),
        forall|j: int| 0 <= j < first_nul(s) ==> s[j] != 0u8,
        first_nul(s) < s.len() ==> s[first_nul(s)] == 0u8,
    decreases s.len(),
{
    if s.len() == 0 {
    } else if s[0] == 0 {
    } else {
        let t = s.drop_first();
        lemma_first_nul_bounds(t);
        assert forall|j: int| 0 <= j < first_nul(s) implies s[j] != 0u8 by {
            if j > 0 {
                assert(t[j - 1] == s[j]);
            }
        }
        if first_nul(s) < s.len() {
            assert(t[first_nul(s) - 1] == s[first_nul(s)]);
        }
    }
}

/// The first NUL sits exactly where a NUL-free run ends.
pub proof fn lemma_first_nul_is(s: Seq<u8>, i: int)
    requires
        0 <= i <= s.len(),
        forall|j: int| 0 <= j < i ==> s[j] != 0u8,
        i < s.len() ==> s[i] == 0u8,
    ensures
        first_nul(s) == i,
    decreases s.len(),
{
    if s.len() == 0 {
    } else if s[0] == 0 {
        assert(i == 0);
    } else {
        assert(i > 0);
        let t = s.drop_first();
        assert forall|j: int| 0 <= j < i - 1 implies t[j] != 0u8 by {
            assert(t[j] == s[j + 1]);
        }
        assert(i - 1 < t.len() ==> t[i - 1] == 0u8) by {
            if i < s.len() {
                assert(t[i - 1] == s[i]);
            }
        }
        lemma_first_nul_is(t, i - 1);
    }
}

/// The position of the first NUL in `s`, or its length when none occurs.
pub fn find_nul(s: &[u8]) -> (r: usize)
    ensures
        r == first_nul(s@),
{
    let n = s.len();
    let mut i: usize = 0;
    while i < n
        invariant
            n == s@.len(),
            i <= n,
            forall|j: int| 0 <= j < i ==> s@[j] != 0u8,
        decreases n - i,
    {
        if *slice_index_get(s, i) == 0 {
            proof {
                lemma_first_nul_is(s@, i as int);
            }
            return i;
        }
        i += 1;
    }
    proof {
        lemma_first_nul_is(s@, n as int);
    }
    n
}

proof fn lemma_utf8_codepoint_bounds(b0: u8, b1: u8, b2: u8, b3: u8)
    by (bit_vector)
    ensures
        ((b0 & 0x7f) as u32) <= 0x7f,
        ((((b0 & 0x1f) as u32) << 6) | ((b1 & 0x3f) as u32)) <= 0x7ff,
        ((((b0 & 0x0f) as u32) << 12) | (((b1 & 0x3f) as u32) << 6) | ((b2 & 0x3f) as u32))
            <= 0xffff,
{
}

/// Check a byte run for UTF-8 validity, one encoded scalar at a time,
/// left to right.
pub fn is_valid_utf8(bytes: &[u8]) -> (r: bool)
    ensures
        r == valid_utf8(bytes@),
{
    let n = bytes.len();
    let mut i: usize = 0;
    proof {
        assert(bytes@.skip(0) =~= bytes@);
    }
    while i < n
        invariant
            n == bytes@.len(),
            i <= n,
            valid_utf8(bytes@) == valid_utf8(bytes@.skip(i as int)),
        decreases n - i,
    {
        let ghost suf = bytes@.skip(i as int);
        proof {
            assert(suf.len() == n - i);
            assert(suf[0] == bytes@[i as int]);
        }
        let b0 = *slice_index_get(bytes, i);
        let w: usize;
        if b0 <= 0x7f {
            proof {
                lemma_utf8_codepoint_bounds(b0, 0, 0, 0);
                assert(valid_first_scalar(suf));
                assert(length_of_first_scalar(suf) == 1);
            }
            w = 1;
        } else if 0xc0 <= b0 && b0 <= 0xdf {
            if n - i < 2 {
                proof {
                    assert(!valid_first_scalar(suf));
                }
                return false;
            }
            let b1 = *slice_index_get(bytes, i + 1);
            proof {
                assert(suf[1] == b1);
            }
            if !(0x80 <= b1 && b1 <= 0xbf) {
                proof {
                    assert(!valid_first_scalar(suf));
                }
                return false;
            }
            let cp: u32 = (((b0 & 0x1f) as u32) << 6) | ((b1 & 0x3f) as u32);
            if cp < 0x80 {
                proof {
                    assert(!valid_first_scalar(suf));
                }
                return false;
            }
            proof {
                lemma_utf8_codepoint_bounds(b0, b1, 0, 0);
                assert(valid_first_scalar(suf));
                assert(length_of_first_scalar(suf) == 2);
            }
            w = 2;
        } else if 0xe0 <= b0 && b0 <= 0xef {
            if n - i < 3 {
                proof {
                    assert(!valid_first_scalar(suf));
                }
                return false;
            }
            let b1 = *slice_index_get(bytes, i + 1);
            let b2 = *slice_index_get(bytes, i + 2);
            proof {
                assert(suf[1] == b1);
                assert(suf[2] == b2);
            }
            if !(0x80 <= b1 && b1 <= 0xbf) || !(0x80 <= b2 && b2 <= 0xbf) {
                proof {
                    assert(!valid_first_scalar(suf));
                }
                return false;
            }
            let cp: u32 = (((b0 & 0x0f) as u32) << 12) | (((b1 & 0x3f) as u32) << 6) | ((b2
                & 0x3f) as u32);
            if cp < 0x800 || (0xd800 <= cp && cp <= 0xdfff) {
                proof {
                    assert(!valid_first_scalar(suf));
                }
                return false;
            }
            proof {
                lemma_utf8_codepoint_bounds(b0, b1, b2, 0);
                assert(valid_first_scalar(suf));
                assert(length_of_first_scalar(suf) == 3);
            }
            w = 3;
        } else if 0xf0 <= b0 && b0 <= 0xf7 {
            if n - i < 4 {
                proof {
                    assert(!valid_first_scalar(suf));
                }
                return false;
            }
            let b1 = *slice_index_get(bytes, i + 1);
            let b2 = *slice_index_get(bytes, i + 2);
            let b3 = *slice_index_get(bytes, i + 3);
            proof {
                assert(suf[1] == b1);
                assert(suf[2] == b2);
                assert(suf[3] == b3);
            }
            if !(0x80 <= b1 && b1 <= 0xbf) || !(0x80 <= b2 && b2 <= 0xbf) || !(0x80 <= b3 && b3
                <= 0xbf) {
                proof {
                    assert(!valid_first_scalar(suf));
                }
                return false;
            }
            let cp: u32 = (((b0 & 0x07) as u32) << 18) | (((b1 & 0x3f) as u32) << 12) | (((b2
                & 0x3f) as u32) << 6) | ((b3 & 0x3f) as u32);
            if cp < 0x10000 || cp > 0x10ffff {
                proof {
                    assert(!valid_first_scalar(suf));
                }
                return false;
            }
            proof {
                assert(valid_first_scalar(suf));
                assert(length_of_first_scalar(suf) == 4);
            }
            w = 4;
        } else {
            proof {
                assert(!valid_first_scalar(suf));
            }
            return false;
        }
        proof {
            assert(valid_first_scalar(suf));
            assert(pop_first_scalar(suf) =~= bytes@.skip(i + w as int));
        }
        i += w;
    }
    proof {
        assert(bytes@.skip(n as int) =~= Seq::<u8>::empty());
    }
    true
}

/// Relies on String::from_utf8: builds the string holding exactly the
/// given bytes.  The caller has already established that the bytes are
/// valid UTF-8, which is what the unwrap leans on.
#[verifier::external_body]
fn bytes_to_string(v: &Vec<u8>) -> (r: String)
    requires
        valid_utf8(v@),
    ensures
        r@ == decode_utf8(v@),
{
    String::from_utf8(v.clone()).unwrap()
}

/// The well-formedness of a fixed string's raw buffer: full protocol
/// width, a valid UTF-8 run up to the first NUL, and nothing but zeros
/// after it.
pub open spec fn fixed_wf(raw: Seq<u8>) -> bool {
    &&& raw.len() == GPIO_MAX_NAME_SIZE
    &&& valid_utf8(nul_prefix(raw))
    &&& tail_zeroed(raw)
}

/// A NUL-padded UTF-8 string of the protocol's fixed name width.
///
/// Its view is the text itself: the bytes before the first NUL.
#[derive(Debug, Clone)]
pub struct FixedStr {
    s: Vec<u8>,
}

impl View for FixedStr {
    type V = Seq<u8>;

    open spec fn view(&self) -> Seq<u8> {
        nul_prefix(self.spec_raw())
    }
}

impl FixedStr {
    /// The raw fixed-width buffer, padding included.
    pub closed spec fn spec_raw(&self) -> Seq<u8> {
        self.s@
    }

    pub open spec fn wf(&self) -> bool {
        fixed_wf(self.spec_raw())
    }

    /// The empty string: a buffer of zeros.
    pub fn empty() -> (r: Self)
        ensures
            r.wf(),
            r@ == Seq::<u8>::empty(),
    {
        let mut s: Vec<u8> = Vec::new();
        let mut i: usize = 0;
        while i < GPIO_MAX_NAME_SIZE
            invariant
                i <= GPIO_MAX_NAME_SIZE,
                s@.len() == i,
                forall|j: int| 0 <= j < i ==> s@[j] == 0u8,
            decreases GPIO_MAX_NAME_SIZE - i,
        {
            s.push(0);
            i += 1;
        }
        proof {
            lemma_first_nul_is(s@, 0);
            assert(nul_prefix(s@) =~= Seq::<u8>::empty());
        }
        FixedStr { s }
    }

    /// Store `text`, rejecting what the buffer cannot hold with its NUL
    /// terminator: more bytes than the reserved width, or an embedded
    /// NUL.
    pub fn new(text: &str) -> (r: Result<Self, FixedStrErr>)
        ensures
            r is Ok <==> text.spec_bytes().len() <= FIXED_STR_MAX_LEN && !text.spec_bytes().contains(
                0u8,
            ),
            r is Ok ==> r->Ok_0.wf() && r->Ok_0@ == text.spec_bytes(),
            text.spec_bytes().len() > FIXED_STR_MAX_LEN ==> (r matches Err(
                FixedStrErr::CapacityOverflow { capacity, required },
            ) && capacity == FIXED_STR_MAX_LEN && required == text.spec_bytes().len()),
            text.spec_bytes().len() <= FIXED_STR_MAX_LEN && text.spec_bytes().contains(0u8) ==> r
                == Err::<Self, FixedStrErr>(FixedStrErr::EmbeddedNul),
    {
        let mut f = Self::empty();
        match f.write(text) {
            Ok(()) => Ok(f),
            Err(e) => Err(e),
        }
    }

    /// The length in bytes of the stored text.
    pub fn len(&self) -> (r: usize)
        requires
            self.wf(),
        ensures
            r == self@.len(),
    {
        proof {
            lemma_first_nul_bounds(self.spec_raw());
        }
        let r = find_nul(self.s.as_slice());
        r
    }

    /// Whether no text is stored.
    pub fn is_empty(&self) -> (r: bool)
        requires
            self.wf(),
        ensures
            r == (self@.len() == 0),
    {
        proof {
            lemma_first_nul_bounds(self.spec_raw());
            if self.spec_raw()[0] == 0 {
                lemma_first_nul_is(self.spec_raw(), 0);
            }
        }
        self.s[0] == 0
    }

    /// Append `text` to the stored text.  The whole result must fit the
    /// width reserved for text (the wire field keeps one byte for its
    /// NUL terminator) and carry no NUL; a rejected append leaves the
    /// string untouched.
    pub fn write(&mut self, text: &str) -> (r: Result<(), FixedStrErr>)
        requires
            old(self).wf(),
        ensures
            final (self).wf(),
            r is Ok <==> old(self)@.len() + text.spec_bytes().len() <= FIXED_STR_MAX_LEN
                && !text.spec_bytes().contains(0u8),
            r is Ok ==> final (self)@ == old(self)@ + text.spec_bytes(),
            r is Err ==> final (self)@ == old(self)@,
            old(self)@.len() + text.spec_bytes().len() > FIXED_STR_MAX_LEN ==> (r matches Err(
                FixedStrErr::CapacityOverflow { capacity, required },
            ) && capacity == FIXED_STR_MAX_LEN && required == (if text.spec_bytes().len()
                > FIXED_STR_MAX_LEN {
                text.spec_bytes().len() as int
            } else {
                old(self)@.len() + text.spec_bytes().len() as int
            })),
            old(self)@.len() + text.spec_bytes().len() <= FIXED_STR_MAX_LEN
                && text.spec_bytes().contains(0u8) ==> r == Err::<(), FixedStrErr>(
                FixedStrErr::EmbeddedNul,
            ),
    {
        proof {
            lemma_first_nul_bounds(self.spec_raw());
        }
        let l = self.len();
        let b = text.as_bytes();
        let bl = b.len();
        if l > FIXED_STR_MAX_LEN || bl > FIXED_STR_MAX_LEN - l {
            let required = if bl > FIXED_STR_MAX_LEN {
                bl
            } else {
                l + bl
            };
            return Err(
                FixedStrErr::CapacityOverflow { capacity: FIXED_STR_MAX_LEN, required },
            );
        }
        let mut j: usize = 0;
        while j < bl
            invariant
                bl == b@.len(),
                j <= bl,
                b@ == text.spec_bytes(),
                self.spec_raw() == old(self).spec_raw(),
                old(self).wf(),
                l == old(self)@.len(),
                l + bl <= FIXED_STR_MAX_LEN,
                forall|k: int| 0 <= k < j ==> b@[k] != 0u8,
            decreases bl - j,
        {
            if *slice_index_get(b, j) == 0 {
                proof {
                    assert(b@[j as int] == 0u8);
                    assert(b@.contains(0u8));
                }
                return Err(FixedStrErr::EmbeddedNul);
            }
            j += 1;
        }
        proof {
            if b@.contains(0u8) {
                let k = choose|k: int| 0 <= k < b@.len() && b@[k] == 0u8;
            }
            assert(!b@.contains(0u8));
        }
        let ghost raw0 = self.spec_raw();
        let mut k: usize = 0;
        while k < bl
            invariant
                bl == b@.len(),
                k <= bl,
                b@ == text.spec_bytes(),
                raw0 == old(self).spec_raw(),
                old(self).wf(),
                l + bl <= FIXED_STR_MAX_LEN,
                l == first_nul(raw0),
                l == old(self)@.len(),
                !b@.contains(0u8),
                self.s@.len() == GPIO_MAX_NAME_SIZE,
                raw0.len() == GPIO_MAX_NAME_SIZE,
                forall|m: int|
                    0 <= m < GPIO_MAX_NAME_SIZE ==> self.s@[m] == (if l <= m < l + k {
                        b@[m - l]
                    } else {
                        raw0[m]
                    }),
            decreases bl - k,
        {
            self.s.set(l + k, *slice_index_get(b, k));
            k += 1;
        }
        proof {
            let raw = self.spec_raw();
            lemma_first_nul_bounds(raw0);
            assert forall|m: int| 0 <= m < l + bl implies raw[m] != 0u8 by {
                if m < l {
                    assert(raw[m] == raw0[m]);
                } else {
                    assert(raw[m] == b@[m - l]);
                    if b@[m - l] == 0u8 {
                        assert(b@.contains(0u8));
                    }
                }
            }
            assert(l + bl < GPIO_MAX_NAME_SIZE ==> raw[l + bl] == 0u8) by {
                if l + bl < GPIO_MAX_NAME_SIZE {
                    assert(raw[l + bl] == raw0[l + bl]);
                }
            }
            lemma_first_nul_is(raw, l + bl);
            assert(nul_prefix(raw) =~= old(self)@ + b@) by {
                assert forall|m: int| 0 <= m < l + bl implies raw[m] == (old(self)@ + b@)[m] by {
                    if m < l {
                        assert(raw[m] == raw0[m]);
                        assert(old(self)@[m] == raw0.take(l as int)[m]);
                    }
                }
            }
            assert(valid_utf8(b@)) by {
                encode_utf8_valid_utf8(text@);
            }
            valid_utf8_concat(old(self)@, b@);
            assert(tail_zeroed(raw)) by {
                assert forall|m: int| first_nul(raw) <= m < GPIO_MAX_NAME_SIZE implies raw[m]
                    == 0u8 by {
                    assert(raw[m] == raw0[m]);
                }
            }
        }
        Ok(())
    }

    /// Decode a full-width buffer: the text runs to the first NUL, must
    /// be valid UTF-8, and nothing but zeros may follow it.
    pub fn from_byte_array(bytes: Vec<u8>) -> (r: Result<Self, FixedStrErr>)
        requires
            bytes@.len() == GPIO_MAX_NAME_SIZE,
        ensures
            r is Ok <==> valid_utf8(nul_prefix(bytes@)) && tail_zeroed(bytes@),
            r is Ok ==> r->Ok_0.wf() && r->Ok_0.spec_raw() == bytes@ && r->Ok_0@ == nul_prefix(
                bytes@,
            ),
            !valid_utf8(nul_prefix(bytes@)) ==> r == Err::<FixedStr, FixedStrErr>(
                FixedStrErr::Utf8,
            ),
            valid_utf8(nul_prefix(bytes@)) && !tail_zeroed(bytes@) ==> r == Err::<
                FixedStr,
                FixedStrErr,
            >(FixedStrErr::TrailingBytes),
    {
        proof {
            lemma_first_nul_bounds(bytes@);
        }
        let k = find_nul(bytes.as_slice());
        let prefix = slice_to_vec(slice_subrange(bytes.as_slice(), 0, k));
        proof {
            assert(prefix@ =~= nul_prefix(bytes@));
        }
        if !is_valid_utf8(prefix.as_slice()) {
            return Err(FixedStrErr::Utf8);
        }
        let mut i: usize = k;
        while i < GPIO_MAX_NAME_SIZE
            invariant
                bytes@.len() == GPIO_MAX_NAME_SIZE,
                k == first_nul(bytes@),
                k <= i <= GPIO_MAX_NAME_SIZE,
                valid_utf8(nul_prefix(bytes@)),
                forall|j: int| k <= j < i ==> bytes@[j] == 0u8,
            decreases GPIO_MAX_NAME_SIZE - i,
        {
            if bytes[i] != 0 {
                proof {
                    assert(!tail_zeroed(bytes@));
                }
                return Err(FixedStrErr::TrailingBytes);
            }
            i += 1;
        }
        Ok(FixedStr { s: bytes })
    }

    /// The raw fixed-width buffer: the text followed by NUL padding.
    pub fn into_byte_array(self) -> (r: Vec<u8>)
        ensures
            r@ == self.spec_raw(),
    {
        self.s
    }

    /// A copy of the raw fixed-width buffer.
    pub fn as_byte_vec(&self) -> (r: Vec<u8>)
        ensures
            r@ == self.spec_raw(),
    {
        slice_to_vec(self.s.as_slice())
    }

    /// Decode from an arbitrary byte run: the text ends at the first NUL
    /// within the fixed width; a buffer without one is accepted only at
    /// exactly the fixed width.  Anything after the first NUL is dropped.
    pub fn from_bytes(bytes: &[u8]) -> (r: Result<Self, FixedStrErr>)
        ensures
            r is Ok <==> ((first_nul(bytes@) < bytes@.len() && first_nul(bytes@)
                < GPIO_MAX_NAME_SIZE) || bytes@.len() == GPIO_MAX_NAME_SIZE) && valid_utf8(
                from_bytes_prefix(bytes@),
            ),
            r is Ok ==> r->Ok_0.wf() && r->Ok_0@ == from_bytes_prefix(bytes@),
            !((first_nul(bytes@) < bytes@.len() && first_nul(bytes@) < GPIO_MAX_NAME_SIZE)
                || bytes@.len() == GPIO_MAX_NAME_SIZE) ==> r == Err::<FixedStr, FixedStrErr>(
                FixedStrErr::CapacityOverflow {
                    capacity: GPIO_MAX_NAME_SIZE,
                    required: bytes@.len() as usize,
                },
            ),
    {
        proof {
            lemma_first_nul_bounds(bytes@);
        }
        let n = bytes.len();
        let k = find_nul(bytes);
        let lenp: usize;
        if k < n && k < GPIO_MAX_NAME_SIZE {
            lenp = k;
        } else if n == GPIO_MAX_NAME_SIZE {
            lenp = GPIO_MAX_NAME_SIZE;
        } else {
            return Err(
                FixedStrErr::CapacityOverflow { capacity: GPIO_MAX_NAME_SIZE, required: n },
            );
        }
        let prefix = slice_to_vec(slice_subrange(bytes, 0, lenp));
        proof {
            assert(prefix@ =~= from_bytes_prefix(bytes@));
        }
        if !is_valid_utf8(prefix.as_slice()) {
            return Err(FixedStrErr::Utf8);
        }
        let plen: usize = lenp;
        let mut s: Vec<u8> = Vec::new();
        let mut i: usize = 0;
        while i < GPIO_MAX_NAME_SIZE
            invariant
                i <= GPIO_MAX_NAME_SIZE,
                plen == lenp,
                plen <= GPIO_MAX_NAME_SIZE,
                plen <= bytes@.len(),
                s@.len() == i,
                forall|m: int| 0 <= m < i && m < plen ==> s@[m] == bytes@[m],
                forall|m: int| plen <= m < i ==> s@[m] == 0u8,
            decreases GPIO_MAX_NAME_SIZE - i,
        {
            if i < plen {
                s.push(*slice_index_get(bytes, i));
            } else {
                s.push(0);
            }
            i += 1;
        }
        proof {
            assert forall|m: int| 0 <= m < lenp implies s@[m] != 0u8 by {
                assert(s@[m] == bytes@[m]);
            }
            lemma_first_nul_is(s@, lenp as int);
            assert(nul_prefix(s@) =~= from_bytes_prefix(bytes@));
        }
        Ok(FixedStr { s })
    }

    /// The stored text as an owned string.
    pub fn as_text(&self) -> (r: String)
        requires
            self.wf(),
        ensures
            r@ == decode_utf8(self@),
    {
        proof {
            lemma_first_nul_bounds(self.spec_raw());
        }
        let l = self.len();
        let prefix = slice_to_vec(slice_subrange(self.s.as_slice(), 0, l));
        proof {
            assert(prefix@ =~= self@);
        }
        bytes_to_string(&prefix)
    }
}

/// The text `from_bytes` reads out of an arbitrary byte run.
pub open spec fn from_bytes_prefix(s: Seq<u8>) -> Seq<u8> {
    if first_nul(s) < s.len() && first_nul(s) < GPIO_MAX_NAME_SIZE {
        s.take(first_nul(s))
    } else {
        s.take(GPIO_MAX_NAME_SIZE as int)
    }
}

} // verus!
