//! Identifier allocation: short identifiers drawn from a fixed 62-symbol
//! alphabet (digits, upper-case letters, lower-case letters), validated
//! before they may address storage, and allocated collision-free against the
//! content store within a bounded number of attempts.

use vstd::prelude::*;

use crate::PasteError;
use crate::store::Store;

verus! {

/// How many symbols the identifier alphabet has.
pub const ALPHABET_SIZE: usize = 62;

/// The symbol at position `i` of the alphabet: `0`-`9`, then `A`-`Z`, then
/// `a`-`z`.
pub open spec fn symbol_spec(i: int) -> u8 {
    if i < 10 {
        (48 + i) as u8
    } else if i < 36 {
        (65 + (i - 10)) as u8
    } else {
        (97 + (i - 36)) as u8
    }
}

/// `b` is a symbol of the identifier alphabet.
pub open spec fn is_id_byte(b: u8) -> bool {
    (48 <= b <= 57) || (65 <= b <= 90) || (97 <= b <= 122)
}

/// A well-formed identifier of length `len`: exactly `len` bytes, each a
/// symbol of the alphabet.
pub open spec fn valid_id(s: Seq<u8>, len: nat) -> bool {
    s.len() == len && forall|i: int| 0 <= i < s.len() ==> is_id_byte(#[trigger] s[i])
}

/// Why validation blocks path traversal: a well-formed identifier holds
/// alphabet symbols only, so neither a path separator nor a dot can reach
/// whatever addresses storage by identifier.
pub proof fn lemma_valid_id_blocks_traversal(s: Seq<u8>, len: nat)
    requires
        valid_id(s, len),
    ensures
        forall|i: int| 0 <= i < s.len() ==> #[trigger] s[i] != '/' as u8 && s[i] != '.' as u8,
{
}

/// Every alphabet position yields an alphabet symbol.
proof fn lemma_symbol_in_alphabet(i: int)
    requires
        0 <= i < ALPHABET_SIZE,
    ensures
        is_id_byte(symbol_spec(i)),
{
}

/// The symbol at alphabet position `i`.
fn symbol(i: usize) -> (b: u8)
    requires
        i < ALPHABET_SIZE,
    ensures
        b == symbol_spec(i as int),
{
    if i < 10 {
        48 + (i as u8)
    } else if i < 36 {
        65 + (i as u8 - 10)
    } else {
        97 + (i as u8 - 36)
    }
}

/// Validates an externally supplied identifier against the configured
/// length and the alphabet, before it is allowed to address storage.
pub fn validate_id(id: &Vec<u8>, length: usize) -> (r: bool)
    ensures
        r == valid_id(id@, length as nat),
{
    if id.len() != length {
        return false;
    }
    let n = id.len();
    let mut i: usize = 0;
    while i < n
        invariant
            i <= n,
            n == id@.len(),
            forall|j: int| 0 <= j < i ==> is_id_byte(#[trigger] id@[j]),
        decreases n - i,
    {
        let b = id[i];
        if !((48 <= b && b <= 57) || (65 <= b && b <= 90) || (97 <= b && b <= 122)) {
            return false;
        }
        i = i + 1;
    }
    true
}

/// Relies on `rand::random_range`: a draw from the half-open range
/// `0..bound` on the thread-local generator lies in that range. An empty
/// range would panic, so the bound must be positive. Nothing is assumed
/// about which value comes back.
#[verifier::external_body]
fn random_below(bound: usize) -> (r: usize)
    requires
        bound > 0,
    ensures
        r < bound,
{
    rand::random_range(0..bound)
}

/// A uniformly random identifier of the given length: each symbol is an
/// independent draw from the alphabet.
pub fn random_id(length: usize) -> (r: Vec<u8>)
    ensures
        valid_id(r@, length as nat),
{
    let mut out: Vec<u8> = Vec::new();
    let mut i: usize = 0;
    while i < length
        invariant
            i <= length,
            out@.len() == i,
            forall|j: int| 0 <= j < out@.len() ==> is_id_byte(#[trigger] out@[j]),
        decreases length - i,
    {
        let k = random_below(ALPHABET_SIZE);
        proof {
            lemma_symbol_in_alphabet(k as int);
        }
        out.push(symbol(k));
        i = i + 1;
    }
    out
}

/// Draws fresh identifiers until one is free in the store, for at most
/// `attempts` draws. A returned identifier has the configured length and
/// alphabet and was absent from the store at the moment of the check; once
/// every draw came back occupied, allocation fails with
/// `CapacityExhausted` instead of retrying forever.
pub fn allocate(store: &Store, length: usize, attempts: usize) -> (r: Result<
    Vec<u8>,
    PasteError,
>)
    requires
        store.wf(),
    ensures
        r matches Ok(id) ==> valid_id(id@, length as nat) && !store@.contains_key(id@),
        r matches Err(e) ==> e == PasteError::CapacityExhausted,
{
    let mut tries: usize = 0;
    while tries < attempts
        invariant
            store.wf(),
        decreases attempts - tries,
    {
        let id = random_id(length);
        if !store.contains_id(&id) {
            return Result::Ok(id);
        }
        tries = tries + 1;
    }
    Result::Err(PasteError::CapacityExhausted)
}

} // verus!
