//! Account and identity keys, and the escrow's derived control identity.
use vstd::prelude::*;
use anchor_lang::solana_program::pubkey::Pubkey;

verus! {

broadcast use vstd::array::group_array_axioms;

/// A 32-byte ledger key: an identity or an account address.
#[derive(Clone, Copy, Debug)]
pub struct Key {
    pub bytes: [u8; 32],
}

impl View for Key {
    type V = Seq<u8>;

    open spec fn view(&self) -> Seq<u8> {
        self.bytes@
    }
}

impl Key {
    /// Whether two keys are the same.
    pub fn same(&self, other: &Key) -> (r: bool)
        ensures
            r == (*self == *other),
    {
        let mut i: usize = 0;
        while i < 32
            invariant
                0 <= i <= 32,
                forall|j: int| 0 <= j < i ==> self.bytes@[j] == other.bytes@[j],
            decreases 32 - i,
        {
            if self.bytes[i] != other.bytes[i] {
                return false;
            }
            i += 1;
        }
        proof {
            assert(self.bytes =~= other.bytes);
        }
        true
    }
}

/// The program-derived address and bump seed that the ledger derives from a
/// seed and a program id.
pub uninterp spec fn program_address_of(seed: Seq<u8>, program_id: Seq<u8>) -> Option<(Seq<u8>, u8)>;

/// Relies on Pubkey::try_find_program_address: the address and bump found
/// for the seed under the program id, which depend on these two alone, or
/// `None` where no bump yields an address off the curve.
#[verifier::external_body]
fn find_program_address(seed: &[u8], program_id: &Key) -> (r: Option<(Key, u8)>)
    ensures
        r matches Some(p) ==> program_address_of(seed@, program_id@) == Some((p.0@, p.1)),
        r is None ==> program_address_of(seed@, program_id@) is None,
{
    match Pubkey::try_find_program_address(&[seed], &Pubkey::new_from_array(program_id.bytes)) {
        Some((address, bump)) => Some((Key { bytes: address.to_bytes() }, bump)),
        None => None,
    }
}

/// The seed from which the escrow's control identity is derived.
pub open spec fn escrow_seed() -> Seq<u8> {
    seq![101u8, 115u8, 99u8, 114u8, 111u8, 119u8]
}

/// The escrow's control identity under a program id: the address derived
/// from the escrow seed, if one exists.
pub open spec fn control_identity_of(program_id: Seq<u8>) -> Option<Seq<u8>> {
    match program_address_of(escrow_seed(), program_id) {
        Some(p) => Some(p.0),
        None => None,
    }
}

/// Derives the control identity under which the escrow holds custody.
pub fn control_identity(program_id: &Key) -> (r: Option<Key>)
    ensures
        r matches Some(k) ==> control_identity_of(program_id@) == Some(k@),
        r is None ==> control_identity_of(program_id@) is None,
{
    let seed: [u8; 6] = [101u8, 115u8, 99u8, 114u8, 111u8, 119u8];
    proof {
        assert(seed@ =~= escrow_seed());
    }
    match find_program_address(seed.as_slice(), program_id) {
        Some(p) => Some(p.0),
        None => None,
    }
}

} // verus!
