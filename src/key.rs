use vstd::prelude::*;

verus! {

/// A 32-byte account identity (a public key or a program address), held as four
/// 64-bit words: word `i` is bytes `8 * i .. 8 * i + 8` read little-endian.
#[derive(Clone, Copy, Debug, PartialEq, Eq, Structural)]
pub struct Key {
    pub w0: u64,
    pub w1: u64,
    pub w2: u64,
    pub w3: u64,
}

impl Key {
    /// The key made of the four given words.
    pub fn new(w0: u64, w1: u64, w2: u64, w3: u64) -> (r: Key)
        ensures
            r == (Key { w0, w1, w2, w3 }),
    {
        Key { w0, w1, w2, w3 }
    }

    /// The all-zero key (the default address).
    pub fn zero() -> (r: Key)
        ensures
            r == (Key { w0: 0, w1: 0, w2: 0, w3: 0 }),
    {
        Key { w0: 0, w1: 0, w2: 0, w3: 0 }
    }

    /// The key whose first eight bytes are the little-endian bytes of `v` and whose
    /// other bytes are zero.
    pub fn from_u64(v: u64) -> (r: Key)
        ensures
            r == key_of(v),
    {
        Key { w0: v, w1: 0, w2: 0, w3: 0 }
    }
}

/// The key whose first eight bytes are the little-endian bytes of `v`, the rest zero.
pub open spec fn key_of(v: u64) -> Key {
    Key { w0: v, w1: 0, w2: 0, w3: 0 }
}

/// Whether `k` occurs in `s`.
pub open spec fn key_in(s: Seq<Key>, k: Key) -> bool {
    exists|i: int| 0 <= i < s.len() && s[i] == k
}

/// Tests whether `k` occurs in `v`.
pub fn contains_key(v: &Vec<Key>, k: &Key) -> (r: bool)
    ensures
        r == key_in(v@, *k),
{
    let mut i: usize = 0;
    while i < v.len()
        invariant
            i <= v.len(),
            forall|j: int| 0 <= j < i ==> v@[j] != *k,
        decreases v.len() - i,
    {
        if v[i] == *k {
            return true;
        }
        i = i + 1;
    }
    false
}

/// Whether no key occurs twice in `s`.
pub open spec fn keys_unique(s: Seq<Key>) -> bool {
    forall|i: int, j: int| 0 <= i < j < s.len() ==> s[i] != s[j]
}

/// Tests whether the keys of `v` are pairwise distinct.
pub fn all_unique(v: &Vec<Key>) -> (r: bool)
    ensures
        r == keys_unique(v@),
{
    let mut i: usize = 0;
    while i < v.len()
        invariant
            i <= v.len(),
            forall|a: int, b: int| 0 <= a < b < v.len() && a < i ==> v@[a] != v@[b],
        decreases v.len() - i,
    {
        let mut j: usize = i + 1;
        while j < v.len()
            invariant
                i < j <= v.len(),
                forall|a: int, b: int| 0 <= a < b < v.len() && a < i ==> v@[a] != v@[b],
                forall|b: int| i < b < j ==> v@[i as int] != v@[b],
            decreases v.len() - j,
        {
            if v[i] == v[j] {
                return false;
            }
            j = j + 1;
        }
        i = i + 1;
    }
    true
}

} // verus!
