//! Account addresses and the deterministic derivation of the accounts that
//! belong to one (unwrapped mint, wrapped token program) pair.
use solana_program::pubkey::Pubkey;
use vstd::prelude::*;

verus! {

/// A 32-byte account address.
#[derive(Clone, Copy, Debug)]
pub struct Address {
    pub bytes: [u8; 32],
}

impl Address {
    /// The address's bytes, in order, as a vector.
    pub fn to_bytes_vec(&self) -> (r: Vec<u8>)
        ensures
            r@ == self@,
    {
        let mut r: Vec<u8> = Vec::new();
        let mut i: usize = 0;
        while i < 32
            invariant
                0 <= i <= 32,
                self.bytes@.len() == 32,
                r@ == self.bytes@.subrange(0, i as int),
            decreases 32 - i,
        {
            r.push(self.bytes[i]);
            i = i + 1;
            proof {
                assert(r@ =~= self.bytes@.subrange(0, i as int));
            }
        }
        proof {
            assert(r@ =~= self.bytes@);
        }
        r
    }
}

impl PartialEq for Address {
    fn eq(&self, other: &Address) -> (r: bool) {
        let mut i: usize = 0;
        while i < 32
            invariant
                0 <= i <= 32,
                self.bytes@.len() == 32,
                other.bytes@.len() == 32,
                forall|j: int| 0 <= j < i ==> self.bytes@[j] == other.bytes@[j],
            decreases 32 - i,
        {
            if self.bytes[i] != other.bytes[i] {
                return false;
            }
            i = i + 1;
        }
        proof {
            assert(self.bytes@ =~= other.bytes@);
        }
        true
    }
}

impl vstd::std_specs::cmp::PartialEqSpecImpl for Address {
    open spec fn obeys_eq_spec() -> bool {
        true
    }

    open spec fn eq_spec(&self, other: &Address) -> bool {
        self@ == other@
    }
}

impl View for Address {
    type V = Seq<u8>;

    open spec fn view(&self) -> Seq<u8> {
        self.bytes@
    }
}

pub fn same_address(a: &Address, b: &Address) -> (r: bool)
    ensures
        r == (a@ == b@),
{
    *a == *b
}

/// The address and bump seed that program-address derivation finds for
/// `seeds` under `program`, or `None` where it finds none.
pub uninterp spec fn program_address(seeds: Seq<Seq<u8>>, program: Seq<u8>) -> Option<(Seq<u8>, u8)>;

/// Relies on `Pubkey::try_find_program_address`: the derived address and its
/// bump seed, a function of the seeds and the program id alone (`None` where
/// no bump seed gives a valid address or the seeds break its length limits).
#[verifier::external_body]
fn find_program_address(seeds: &Vec<Vec<u8>>, program_id: &Address) -> (r: Option<(Address, u8)>)
    ensures
        match r {
            Some(p) => program_address(seeds_view(seeds@), program_id@) == Some((p.0@, p.1)),
            None => program_address(seeds_view(seeds@), program_id@) is None,
        },
{
    let refs: Vec<&[u8]> = seeds.iter().map(|s| s.as_slice()).collect();
    match Pubkey::try_find_program_address(&refs, &Pubkey::new_from_array(program_id.bytes)) {
        Some((a, bump)) => Some((Address { bytes: a.to_bytes() }, bump)),
        None => None,
    }
}

/// The byte strings of a list of seeds.
pub open spec fn seeds_view(seeds: Seq<Vec<u8>>) -> Seq<Seq<u8>> {
    seeds.map_values(|v: Vec<u8>| v@)
}

/// The address alone of a derivation.
pub open spec fn derive(seeds: Seq<Seq<u8>>, program: Seq<u8>) -> Option<Seq<u8>> {
    match program_address(seeds, program) {
        Some(p) => Some(p.0),
        None => None,
    }
}

/// The view of an optional address.
pub open spec fn opt_view(a: Option<Address>) -> Option<Seq<u8>> {
    match a {
        Some(x) => Some(x@),
        None => None,
    }
}

/// `"wrapped-mint"`
pub open spec fn wrapped_mint_tag() -> Seq<u8> {
    seq![119u8, 114, 97, 112, 112, 101, 100, 45, 109, 105, 110, 116]
}

/// `"backpointer"`
pub open spec fn backpointer_tag() -> Seq<u8> {
    seq![98u8, 97, 99, 107, 112, 111, 105, 110, 116, 101, 114]
}

/// `"authority"`
pub open spec fn authority_tag() -> Seq<u8> {
    seq![97u8, 117, 116, 104, 111, 114, 105, 116, 121]
}

/// Where the wrapped mint of the pair (`unwrapped_mint`, `issuer`) lives.
pub open spec fn wrapped_mint_address_of(
    program: Seq<u8>,
    unwrapped_mint: Seq<u8>,
    issuer: Seq<u8>,
) -> Option<Seq<u8>> {
    derive(seq![wrapped_mint_tag(), unwrapped_mint, issuer], program)
}

/// Where the backpointer of `wrapped_mint` lives.
pub open spec fn backpointer_address_of(program: Seq<u8>, wrapped_mint: Seq<u8>) -> Option<Seq<u8>> {
    derive(seq![backpointer_tag(), wrapped_mint], program)
}

/// The escrow authority of `wrapped_mint`: mint authority of the wrapped
/// mint and owner of the escrow.
pub open spec fn authority_address_of(program: Seq<u8>, wrapped_mint: Seq<u8>) -> Option<Seq<u8>> {
    derive(seq![authority_tag(), wrapped_mint], program)
}

fn derive_address(seeds: &Vec<Vec<u8>>, program_id: &Address) -> (r: Option<Address>)
    ensures
        opt_view(r) == derive(seeds_view(seeds@), program_id@),
{
    match find_program_address(seeds, program_id) {
        Some(p) => Some(p.0),
        None => None,
    }
}

/// The wrapped mint address for `unwrapped_mint` under the token program `issuer`.
pub fn get_wrapped_mint_address(
    program_id: &Address,
    unwrapped_mint: &Address,
    issuer: &Address,
) -> (r: Option<Address>)
    ensures
        opt_view(r) == wrapped_mint_address_of(program_id@, unwrapped_mint@, issuer@),
{
    let tag: Vec<u8> = vec![119u8, 114, 97, 112, 112, 101, 100, 45, 109, 105, 110, 116];
    let seeds: Vec<Vec<u8>> = vec![tag, unwrapped_mint.to_bytes_vec(), issuer.to_bytes_vec()];
    proof {
        assert(seeds@[0]@ =~= wrapped_mint_tag());
        assert(seeds_view(seeds@) =~= seq![wrapped_mint_tag(), unwrapped_mint@, issuer@]);
    }
    derive_address(&seeds, program_id)
}

/// The backpointer address of `wrapped_mint`.
pub fn get_wrapped_mint_backpointer_address(program_id: &Address, wrapped_mint: &Address) -> (r:
    Option<Address>)
    ensures
        opt_view(r) == backpointer_address_of(program_id@, wrapped_mint@),
{
    let tag: Vec<u8> = vec![98u8, 97, 99, 107, 112, 111, 105, 110, 116, 101, 114];
    let seeds: Vec<Vec<u8>> = vec![tag, wrapped_mint.to_bytes_vec()];
    proof {
        assert(seeds@[0]@ =~= backpointer_tag());
        assert(seeds_view(seeds@) =~= seq![backpointer_tag(), wrapped_mint@]);
    }
    derive_address(&seeds, program_id)
}

/// The escrow authority address of `wrapped_mint`.
pub fn get_wrapped_mint_authority(program_id: &Address, wrapped_mint: &Address) -> (r: Option<
    Address,
>)
    ensures
        opt_view(r) == authority_address_of(program_id@, wrapped_mint@),
{
    let tag: Vec<u8> = vec![97u8, 117, 116, 104, 111, 114, 105, 116, 121];
    let seeds: Vec<Vec<u8>> = vec![tag, wrapped_mint.to_bytes_vec()];
    proof {
        assert(seeds@[0]@ =~= authority_tag());
        assert(seeds_view(seeds@) =~= seq![authority_tag(), wrapped_mint@]);
    }
    derive_address(&seeds, program_id)
}

} // verus!
