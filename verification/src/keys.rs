use vstd::prelude::*;

verus! {

/// An account address (a Solana public key) as its 32 bytes.
pub type Key = [u8; 32];

/// Byte-wise equality of two addresses.
pub fn keys_equal(a: &Key, b: &Key) -> (eq: bool)
    ensures
        eq == (a@ == b@),
{
    let mut i: usize = 0;
    while i < 32
        invariant
            i <= 32,
            a@.len() == 32,
            b@.len() == 32,
            forall|j: int| 0 <= j < i ==> a@[j] == b@[j],
        decreases 32 - i,
    {
        if a[i] != b[i] {
            return false;
        }
        i = i + 1;
    }
    assert(a@ =~= b@);
    true
}

} // verus!
