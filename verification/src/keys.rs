//! Account addresses as plain 32-byte values.

use vstd::prelude::*;

verus! {

/// A 32-byte account address.
pub type Key = [u8; 32];

/// The all-zero address, which stands for "no account".
pub open spec fn zero_key() -> Seq<u8> {
    Seq::new(32, |_i: int| 0u8)
}

/// Whether an address is the all-zero address.
pub open spec fn is_default_key(k: Key) -> bool {
    k@ == zero_key()
}

/// The all-zero address.
pub fn default_key() -> (k: Key)
    ensures
        is_default_key(k),
{
    let k: Key = [0u8; 32];
    assert(k@ =~= zero_key());
    k
}

/// Byte-wise comparison of two addresses.
pub fn keys_equal(a: &Key, b: &Key) -> (r: bool)
    ensures
        r == (a@ == b@),
{
    let mut i: usize = 0;
    while i < 32
        invariant
            i <= 32,
            a@.len() == 32,
            b@.len() == 32,
            forall|j: int| 0 <= j < i ==> a@[j] == b@[j],
        decreases 32 - i,
    {
        if a[i] != b[i] {
            assert(a@[i as int] != b@[i as int]);
            return false;
        }
        i = i + 1;
    }
    assert(a@ =~= b@);
    true
}

/// Whether an address is the all-zero address.
pub fn is_default(k: &Key) -> (r: bool)
    ensures
        r == is_default_key(*k),
{
    let z = default_key();
    keys_equal(k, &z)
}

} // verus!
