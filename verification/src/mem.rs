//! Memory primitives: fixed-length fill and copy, and the zero-terminated
//! copy and compare, on explicit byte regions.
//!
//! A region is held as a vector of bytes; an operation on `[0, n)` of it
//! stands for the raw operation on the span `[pointer, pointer + n)`. The
//! validity the raw layer demands of its caller (a live, long-enough span)
//! becomes a length precondition here, and non-overlap holds because the
//! regions are distinct values.

use vstd::prelude::*;
use vstd::pervasive::VecAdditionalExecFns;

verus! {

/// True when the region holds a zero terminator.
pub open spec fn has_terminator(s: Seq<u8>) -> bool {
    exists|i: int| 0 <= i < s.len() && s[i] == 0
}

/// The index of the first zero byte, for a region that holds one.
pub open spec fn terminator_index(s: Seq<u8>) -> int
    recommends
        has_terminator(s),
    decreases s.len(),
{
    if s.len() == 0 {
        0
    } else if s[0] == 0 {
        0
    } else {
        1 + terminator_index(s.drop_first())
    }
}

/// For a region with a terminator, `terminator_index` names the first zero
/// byte: the bytes before it are nonzero and the byte at it is zero.
pub proof fn lemma_terminator_index(s: Seq<u8>)
    requires
        has_terminator(s),
    ensures
        0 <= terminator_index(s) < s.len(),
        s[terminator_index(s)] == 0,
        forall|j: int| 0 <= j < terminator_index(s) ==> s[j] != 0,
    decreases s.len(),
{
    if s.len() > 0 && s[0] != 0 {
        assert(has_terminator(s.drop_first())) by {
            let i = choose|i: int| 0 <= i < s.len() && s[i] == 0;
            assert(s.drop_first()[i - 1] == 0);
        }
        lemma_terminator_index(s.drop_first());
        assert forall|j: int| 1 <= j < terminator_index(s) implies s[j] != 0 by {
            assert(s.drop_first()[j - 1] == s[j]);
            assert(j - 1 < terminator_index(s.drop_first()));
        }
    }
}

/// Lexicographic order of two zero-terminated byte sequences: the sign of
/// the first differing byte pair, zero when both end together unmatched.
pub open spec fn strcmp_spec(a: Seq<u8>, b: Seq<u8>) -> int
    recommends
        has_terminator(a),
        has_terminator(b),
    decreases a.len(),
{
    if a.len() == 0 || b.len() == 0 {
        0
    } else if a[0] != b[0] {
        if a[0] < b[0] {
            -1
        } else {
            1
        }
    } else if a[0] == 0 {
        0
    } else {
        strcmp_spec(a.drop_first(), b.drop_first())
    }
}

/// Writes `value` to every byte in `[0, n)` of the region, whatever the
/// region held before; the bytes at and past `n` keep their values.
pub fn memset(buf: &mut Vec<u8>, value: u8, n: usize)
    requires
        n <= old(buf).len(),
    ensures
        final(buf)@.len() == old(buf)@.len(),
        forall|i: int| 0 <= i < n ==> final(buf)@[i] == value,
        forall|i: int| n <= i < old(buf)@.len() ==> final(buf)@[i] == old(buf)@[i],
{
    let mut i: usize = 0;
    while i < n
        invariant
            i <= n <= buf@.len(),
            buf@.len() == old(buf)@.len(),
            forall|j: int| 0 <= j < i ==> buf@[j] == value,
            forall|j: int| i <= j < buf@.len() ==> buf@[j] == old(buf)@[j],
        decreases n - i,
    {
        buf.set(i, value);
        i += 1;
    }
}

/// Copies the first `n` bytes of `source` onto the first `n` bytes of
/// `dest`; the bytes at and past `n` keep their values. The two regions are
/// distinct values, so the copy cannot overlap.
pub fn memcpy(dest: &mut Vec<u8>, source: &Vec<u8>, n: usize)
    requires
        n <= old(dest).len(),
        n <= source.len(),
    ensures
        final(dest)@.len() == old(dest)@.len(),
        forall|i: int| 0 <= i < n ==> final(dest)@[i] == source@[i],
        forall|i: int| n <= i < old(dest)@.len() ==> final(dest)@[i] == old(dest)@[i],
{
    let mut i: usize = 0;
    while i < n
        invariant
            i <= n <= dest@.len(),
            n <= source@.len(),
            dest@.len() == old(dest)@.len(),
            forall|j: int| 0 <= j < i ==> dest@[j] == source@[j],
            forall|j: int| i <= j < dest@.len() ==> dest@[j] == old(dest)@[j],
        decreases n - i,
    {
        dest.set(i, source[i]);
        i += 1;
    }
}

/// Copies bytes from `source` into `dest` up to and including the first
/// zero terminator, and returns the terminator's index: `r + 1` bytes are
/// written. The bytes of `dest` past the terminator keep their values.
pub fn strcpy(dest: &mut Vec<u8>, source: &Vec<u8>) -> (r: usize)
    requires
        has_terminator(source@),
        terminator_index(source@) < old(dest).len(),
    ensures
        r == terminator_index(source@),
        final(dest)@.len() == old(dest)@.len(),
        forall|i: int| 0 <= i <= r ==> final(dest)@[i] == source@[i],
        forall|i: int| r < i < old(dest)@.len() ==> final(dest)@[i] == old(dest)@[i],
{
    proof {
        lemma_terminator_index(source@);
    }
    let ghost t = terminator_index(source@);
    let n: usize = source.len();
    let mut i: usize = 0;
    while source[i] != 0
        invariant
            has_terminator(source@),
            t == terminator_index(source@),
            n == source@.len(),
            0 <= i <= t < source@.len(),
            t < dest@.len(),
            dest@.len() == old(dest)@.len(),
            forall|j: int| 0 <= j < i ==> dest@[j] == source@[j],
            forall|j: int| i <= j < dest@.len() ==> dest@[j] == old(dest)@[j],
        decreases source@.len() - i,
    {
        proof {
            lemma_terminator_index(source@);
        }
        dest.set(i, source[i]);
        i += 1;
    }
    proof {
        lemma_terminator_index(source@);
        assert(i == t) by {
            if i < t {
                assert(source@[i as int] != 0);
            }
        }
    }
    dest.set(i, 0);
    i
}

/// Compares two zero-terminated byte sequences lexicographically, one byte
/// from each per step, until a terminator or the first mismatch: negative
/// one, zero, or one as the first is below, equal to, or above the second.
pub fn strcmp(a: &Vec<u8>, b: &Vec<u8>) -> (r: i32)
    requires
        has_terminator(a@),
        has_terminator(b@),
    ensures
        r == strcmp_spec(a@, b@),
        -1 <= r <= 1,
{
    let alen: usize = a.len();
    let blen: usize = b.len();
    let mut i: usize = 0;
    proof {
        lemma_terminator_index(a@);
        lemma_terminator_index(b@);
        assert(a@.skip(0) =~= a@);
        assert(b@.skip(0) =~= b@);
    }
    loop
        invariant
            has_terminator(a@),
            has_terminator(b@),
            alen == a@.len(),
            blen == b@.len(),
            i <= terminator_index(a@),
            i <= terminator_index(b@),
            i < a@.len(),
            i < b@.len(),
            forall|j: int| 0 <= j < i ==> a@[j] == b@[j] && a@[j] != 0,
            strcmp_spec(a@.skip(i as int), b@.skip(i as int)) == strcmp_spec(a@, b@),
        decreases a@.len() - i,
    {
        proof {
            lemma_terminator_index(a@);
            lemma_terminator_index(b@);
        }
        let ca = a[i];
        let cb = b[i];
        proof {
            assert(a@.skip(i as int)[0] == ca);
            assert(b@.skip(i as int)[0] == cb);
        }
        if ca != cb {
            if ca < cb {
                return -1;
            } else {
                return 1;
            }
        }
        if ca == 0 {
            return 0;
        }
        proof {
            assert(a@.skip(i as int).drop_first() =~= a@.skip(i + 1));
            assert(b@.skip(i as int).drop_first() =~= b@.skip(i + 1));
        }
        i += 1;
    }
}

} // verus!
