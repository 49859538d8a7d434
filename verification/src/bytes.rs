//! Byte-sequence helpers shared by the store, the locale resolver and the
//! URL composer: equality, copying, concatenation, substring search and
//! decimal formatting, each with an exact contract.

use vstd::prelude::*;

verus! {

/// `needle` occurs contiguously somewhere inside `hay`.
pub open spec fn contains_sub(hay: Seq<u8>, needle: Seq<u8>) -> bool {
    exists|i: int|
        0 <= i && i + needle.len() <= hay.len() && #[trigger] hay.subrange(
            i,
            i + needle.len() as int,
        ) == needle
}

/// The decimal digits of `n`, most significant first.
pub open spec fn dec_digits(n: nat) -> Seq<u8>
    decreases n,
{
    if n < 10 {
        seq![(48 + n) as u8]
    } else {
        dec_digits(n / 10).push((48 + n % 10) as u8)
    }
}

/// Element-wise equality of two byte vectors.
pub fn bytes_eq(a: &Vec<u8>, b: &Vec<u8>) -> (r: bool)
    ensures
        r == (a@ == b@),
{
    if a.len() != b.len() {
        return false;
    }
    let n = a.len();
    let mut i: usize = 0;
    while i < n
        invariant
            i <= n,
            n == a@.len() == b@.len(),
            forall|j: int| 0 <= j < i ==> a@[j] == b@[j],
        decreases n - i,
    {
        if a[i] != b[i] {
            return false;
        }
        i = i + 1;
    }
    proof {
        assert(a@ =~= b@);
    }
    true
}

/// A fresh vector holding the same bytes as `v`.
pub fn clone_bytes(v: &Vec<u8>) -> (r: Vec<u8>)
    ensures
        r@ == v@,
{
    let mut out: Vec<u8> = Vec::new();
    let n = v.len();
    let mut i: usize = 0;
    while i < n
        invariant
            i <= n,
            n == v@.len(),
            out@ == v@.subrange(0, i as int),
        decreases n - i,
    {
        out.push(v[i]);
        proof {
            assert(out@ =~= v@.subrange(0, i + 1 as int));
        }
        i = i + 1;
    }
    proof {
        assert(v@.subrange(0, n as int) =~= v@);
    }
    out
}

/// Appends all of `src` to the end of `dst`.
pub fn append_bytes(dst: &mut Vec<u8>, src: &Vec<u8>)
    ensures
        final(dst)@ == old(dst)@ + src@,
{
    let n = src.len();
    let mut i: usize = 0;
    while i < n
        invariant
            i <= n,
            n == src@.len(),
            dst@ == old(dst)@ + src@.subrange(0, i as int),
        decreases n - i,
    {
        dst.push(src[i]);
        proof {
            assert(old(dst)@ + src@.subrange(0, i as int) + seq![src@[i as int]] =~= old(dst)@
                + src@.subrange(0, i + 1 as int));
        }
        i = i + 1;
    }
    proof {
        assert(old(dst)@ + src@.subrange(0, n as int) =~= old(dst)@ + src@);
    }
}

/// The bytes of `hay` starting at `at` are exactly `needle`.
#[verifier::loop_isolation(false)]
fn matches_at(hay: &Vec<u8>, needle: &Vec<u8>, at: usize) -> (r: bool)
    requires
        at + needle@.len() <= hay@.len(),
    ensures
        r == (hay@.subrange(at as int, at + needle@.len()) == needle@),
{
    let n = needle.len();
    let hn = hay.len();
    let mut k: usize = 0;
    while k < n && hay[at + k] == needle[k]
        invariant
            k <= n,
            n == needle@.len(),
            hn == hay@.len(),
            at + n <= hn,
            forall|m: int| 0 <= m < k ==> hay@[at + m] == needle@[m],
        decreases n - k,
    {
        k = k + 1;
    }
    if k == n {
        proof {
            assert(hay@.subrange(at as int, at + needle@.len()) =~= needle@);
        }
        true
    } else {
        proof {
            assert(hay@.subrange(at as int, at + needle@.len())[k as int] != needle@[k as int]);
        }
        false
    }
}

/// Substring search: does `needle` occur contiguously inside `hay`?
#[verifier::loop_isolation(false)]
pub fn contains_bytes(hay: &Vec<u8>, needle: &Vec<u8>) -> (r: bool)
    ensures
        r == contains_sub(hay@, needle@),
{
    if needle.len() == 0 {
        proof {
            assert(hay@.subrange(0, 0 + needle@.len() as int) =~= needle@);
        }
        return true;
    }
    if needle.len() > hay.len() {
        return false;
    }
    let last = hay.len() - needle.len();
    let mut i: usize = 0;
    while i <= last
        invariant
            last == hay@.len() - needle@.len(),
            i <= last + 1,
            forall|j: int|
                0 <= j < i ==> #[trigger] hay@.subrange(j, j + needle@.len() as int) != needle@,
        decreases last + 1 - i,
    {
        if matches_at(hay, needle, i) {
            return true;
        }
        i = i + 1;
    }
    false
}

/// The decimal rendering of `n` as ASCII digits, most significant first.
pub fn decimal_digits(n: u64) -> (r: Vec<u8>)
    ensures
        r@ == dec_digits(n as nat),
{
    let mut out: Vec<u8> = Vec::new();
    let mut m: u64 = n;
    while m >= 10
        invariant
            dec_digits(n as nat) == dec_digits(m as nat) + out@,
        decreases m,
    {
        let ghost prev = out@;
        let d: u8 = (48 + (m % 10)) as u8;
        out.insert(0, d);
        proof {
            assert(out@ =~= seq![d] + prev);
            assert(dec_digits(m as nat / 10) + (seq![d] + prev) =~= dec_digits(m as nat / 10).push(
                d,
            ) + prev);
        }
        m = m / 10;
    }
    let ghost prev = out@;
    let d: u8 = (48 + m) as u8;
    out.insert(0, d);
    proof {
        assert(out@ =~= seq![d] + prev);
        assert(dec_digits(m as nat) =~= seq![d]);
        assert(dec_digits(m as nat) + prev =~= out@);
    }
    out
}

} // verus!
