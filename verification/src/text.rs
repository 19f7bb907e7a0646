//! Byte-level text helpers.
//!
//! Every payload this core moves around is an opaque byte string. The capture
//! protocol compares clipboard contents after trimming surrounding
//! whitespace, and the streamer needs prefix tests and suffix extraction;
//! this module provides those operations with exact contracts.

use vstd::prelude::*;

verus! {

/// Whitespace as trimming understands it: space, tab, line feed, carriage
/// return.
pub open spec fn is_space(b: u8) -> bool {
    b == 32u8 || b == 9u8 || b == 10u8 || b == 13u8
}

/// The sequence with its leading whitespace removed.
pub open spec fn trim_start_spec(s: Seq<u8>) -> Seq<u8>
    decreases s.len(),
{
    if s.len() > 0 && is_space(s[0]) {
        trim_start_spec(s.skip(1))
    } else {
        s
    }
}

/// The sequence with its trailing whitespace removed.
pub open spec fn trim_end_spec(s: Seq<u8>) -> Seq<u8>
    decreases s.len(),
{
    if s.len() > 0 && is_space(s[s.len() - 1]) {
        trim_end_spec(s.take(s.len() - 1))
    } else {
        s
    }
}

/// The sequence with whitespace removed from both ends.
pub open spec fn trimmed(s: Seq<u8>) -> Seq<u8> {
    trim_end_spec(trim_start_spec(s))
}

fn is_space_byte(b: u8) -> (r: bool)
    ensures
        r == is_space(b),
{
    b == 32 || b == 9 || b == 10 || b == 13
}

/// Remove leading and trailing whitespace.
pub fn trim(s: &Vec<u8>) -> (r: Vec<u8>)
    ensures
        r@ == trimmed(s@),
{
    let n = s.len();
    let mut i: usize = 0;
    proof {
        assert(s@.skip(0) =~= s@);
    }
    while i < n && is_space_byte(s[i])
        invariant
            i <= n,
            n == s@.len(),
            trim_start_spec(s@) == trim_start_spec(s@.skip(i as int)),
        decreases n - i,
    {
        proof {
            assert(s@.skip(i as int).skip(1) =~= s@.skip(i as int + 1));
        }
        i = i + 1;
    }
    proof {
        // The loop stopped either at the end or on a non-space byte, so the
        // remaining tail is already start-trimmed.
        assert(trim_start_spec(s@.skip(i as int)) == s@.skip(i as int));
    }
    let ghost t: Seq<u8> = s@.skip(i as int);
    let mut j: usize = n;
    proof {
        assert(t.take(j - i as int) =~= t);
    }
    while j > i && is_space_byte(s[j - 1])
        invariant
            i <= j <= n,
            n == s@.len(),
            t == s@.skip(i as int),
            trim_end_spec(t) == trim_end_spec(t.take(j - i as int)),
        decreases j,
    {
        proof {
            assert(t.take(j - i as int).take(j - 1 - i as int) =~= t.take(j - 1 - i as int));
            assert(t.take(j - i as int)[j - 1 - i as int] == s@[j - 1]);
        }
        j = j - 1;
    }
    proof {
        if j > i {
            assert(t.take(j - i as int)[j - 1 - i as int] == s@[j - 1]);
        }
        assert(trim_end_spec(t.take(j - i as int)) == t.take(j - i as int));
    }
    let mut r: Vec<u8> = Vec::new();
    let mut k: usize = i;
    while k < j
        invariant
            i <= k <= j <= n,
            n == s@.len(),
            r@ == s@.subrange(i as int, k as int),
        decreases j - k,
    {
        r.push(s[k]);
        proof {
            assert(s@.subrange(i as int, k as int + 1) =~= s@.subrange(i as int, k as int)
                + seq![s@[k as int]]);
        }
        k = k + 1;
    }
    proof {
        assert(t.take(j - i as int) =~= s@.subrange(i as int, j as int));
    }
    r
}

/// Byte-for-byte equality of two byte strings.
pub fn bytes_eq(a: &Vec<u8>, b: &Vec<u8>) -> (r: bool)
    ensures
        r == (a@ == b@),
{
    if a.len() != b.len() {
        return false;
    }
    let mut i: usize = 0;
    while i < a.len()
        invariant
            i <= a@.len(),
            a@.len() == b@.len(),
            forall|k: int| 0 <= k < i ==> a@[k] == b@[k],
        decreases a@.len() - i,
    {
        if a[i] != b[i] {
            return false;
        }
        i = i + 1;
    }
    proof {
        assert(a@ =~= b@);
    }
    true
}

/// Whether `a` is a prefix of `b`.
pub fn is_prefix(a: &Vec<u8>, b: &Vec<u8>) -> (r: bool)
    ensures
        r == a@.is_prefix_of(b@),
{
    if a.len() > b.len() {
        return false;
    }
    let mut i: usize = 0;
    while i < a.len()
        invariant
            i <= a@.len() <= b@.len(),
            forall|k: int| 0 <= k < i ==> a@[k] == b@[k],
        decreases a@.len() - i,
    {
        if a[i] != b[i] {
            proof {
                assert(!(a@ =~= b@.subrange(0, a@.len() as int)));
            }
            return false;
        }
        i = i + 1;
    }
    proof {
        assert(a@ =~= b@.subrange(0, a@.len() as int));
    }
    true
}

/// The tail of `b` from position `i` on.
pub fn suffix_from(b: &Vec<u8>, i: usize) -> (r: Vec<u8>)
    requires
        i <= b@.len(),
    ensures
        r@ == b@.skip(i as int),
{
    let mut r: Vec<u8> = Vec::new();
    let mut k: usize = i;
    while k < b.len()
        invariant
            i <= k <= b@.len(),
            r@ == b@.subrange(i as int, k as int),
        decreases b@.len() - k,
    {
        r.push(b[k]);
        proof {
            assert(b@.subrange(i as int, k as int + 1) =~= b@.subrange(i as int, k as int)
                + seq![b@[k as int]]);
        }
        k = k + 1;
    }
    r
}

/// A fresh copy of a byte string.
pub fn copy_bytes(v: &Vec<u8>) -> (r: Vec<u8>)
    ensures
        r@ == v@,
{
    let mut r: Vec<u8> = Vec::new();
    let mut k: usize = 0;
    while k < v.len()
        invariant
            k <= v@.len(),
            r@ == v@.subrange(0, k as int),
        decreases v@.len() - k,
    {
        r.push(v[k]);
        proof {
            assert(v@.subrange(0, k as int + 1) =~= v@.subrange(0, k as int)
                + seq![v@[k as int]]);
        }
        k = k + 1;
    }
    proof {
        assert(v@.subrange(0, v@.len() as int) =~= v@);
    }
    r
}

} // verus!
