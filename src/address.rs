//! Ledger addresses, and the program-derived addresses that give an auction
//! record its own signing identity.

use vstd::prelude::*;

verus! {

/// A 32-byte ledger address.
#[derive(Clone, Copy, Debug)]
pub struct Address {
    pub bytes: [u8; 32],
}

impl View for Address {
    type V = Seq<u8>;

    open spec fn view(&self) -> Seq<u8> {
        self.bytes@
    }
}

impl Address {
    pub fn new(bytes: [u8; 32]) -> (r: Address)
        ensures
            r.bytes == bytes,
    {
        Address { bytes }
    }
}

impl PartialEq for Address {
    fn eq(&self, o: &Address) -> (r: bool) {
        let mut i: usize = 0;
        while i < 32
            invariant
                i <= 32,
                self.bytes@.len() == 32,
                o.bytes@.len() == 32,
                forall|j: int| 0 <= j < i ==> self.bytes@[j] == o.bytes@[j],
            decreases 32 - i,
        {
            if self.bytes[i] != o.bytes[i] {
                return false;
            }
            i = i + 1;
        }
        assert(self.bytes@ =~= o.bytes@);
        true
    }
}

impl vstd::std_specs::cmp::PartialEqSpecImpl for Address {
    open spec fn obeys_eq_spec() -> bool {
        true
    }

    open spec fn eq_spec(&self, o: &Address) -> bool {
        self@ == o@
    }
}

/// The address that the host derives from one seed under a program id, with
/// its bump byte, or `None` where no bump gives an address off the curve.
pub uninterp spec fn program_address(seed: Seq<u8>, program_id: Seq<u8>) -> Option<(Seq<u8>, u8)>;

/// The view of a derived address as exec code holds it.
pub open spec fn derived_view(d: Option<(Address, u8)>) -> Option<(Seq<u8>, u8)> {
    match d {
        Some((a, bump)) => Some((a@, bump)),
        None => None,
    }
}

/// Relies on `Pubkey::try_find_program_address` of solana-program (through
/// anchor-lang's prelude): a deterministic function of the seed and program id
/// bytes, returning the first bump from 255 down whose address is off the curve.
#[verifier::external_body]
pub(crate) fn find_program_address(seed: &Address, program_id: &Address) -> (r: Option<(Address, u8)>)
    ensures
        derived_view(r) == program_address(seed@, program_id@),
{
    let id = anchor_lang::prelude::Pubkey::new_from_array(program_id.bytes);
    match anchor_lang::prelude::Pubkey::try_find_program_address(&[&seed.bytes], &id) {
        Some((key, bump)) => Some((Address { bytes: key.to_bytes() }, bump)),
        None => None,
    }
}

} // verus!
