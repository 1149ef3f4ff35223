//! The Address Deriver: a pure map from a purpose tag and a seed to a
//! deterministic custody address plus the disambiguation nonce ("bump") that
//! selects it. Re-deriving with the same tag, seed and nonce always
//! reproduces the same address; every other component relies on this to
//! re-authorize a previously created custody account without storing the
//! address itself.

use vstd::prelude::*;

verus! {

/// What `Pubkey::try_find_program_address` returns for a tag, a seed and a
/// program id: the derived address and its nonce, or nothing in the
/// astronomically unlikely event that no nonce yields a valid address.
/// The result depends on the three arguments alone.
pub uninterp spec fn pda_of(tag: Seq<u8>, seed: Seq<u8>, program_id: Seq<u8>) -> Option<(Seq<u8>, u8)>;

/// What `Pubkey::create_program_address` returns for a tag, a seed, a fixed
/// nonce and a program id: the derived address, or nothing when the digest is
/// rejected or a seed is over the length cap. The result depends on the four
/// arguments alone.
pub uninterp spec fn pda_at(tag: Seq<u8>, seed: Seq<u8>, nonce: u8, program_id: Seq<u8>) -> Option<Seq<u8>>;

/// Relies on `Pubkey::try_find_program_address` (anchor_lang's solana_program
/// re-export): it searches nonces downward from 255 and returns the first
/// valid derived address together with that nonce, or `None` if no nonce is
/// viable; by its documented contract, `create_program_address` on the same
/// seeds plus the returned nonce reproduces exactly the returned address.
#[verifier::external_body]
fn find_derived(tag: &Vec<u8>, seed: &Vec<u8>, program_id: &Vec<u8>) -> (r: Option<(Vec<u8>, u8)>)
    requires
        program_id@.len() == 32,
    ensures
        match r {
            Some(p) => {
                &&& pda_of(tag@, seed@, program_id@) == Some((p.0@, p.1))
                &&& pda_at(tag@, seed@, p.1, program_id@) == Some(p.0@)
                &&& p.0@.len() == 32
            },
            None => pda_of(tag@, seed@, program_id@) is None,
        },
{
    let pid_bytes: [u8; 32] = program_id.as_slice().try_into().unwrap();
    let pid = anchor_lang::solana_program::pubkey::Pubkey::new_from_array(pid_bytes);
    let seeds: [&[u8]; 2] = [tag.as_slice(), seed.as_slice()];
    anchor_lang::solana_program::pubkey::Pubkey::try_find_program_address(&seeds, &pid)
        .map(|(addr, nonce)| (addr.to_bytes().to_vec(), nonce))
}

/// Relies on `Pubkey::create_program_address` (anchor_lang's solana_program
/// re-export): it derives the address selected by the given nonce, returning
/// an error, mapped to `None` here, when the digest falls on the rejected
/// curve or a seed is over the length cap.
#[verifier::external_body]
fn find_derived_at(tag: &Vec<u8>, seed: &Vec<u8>, nonce: u8, program_id: &Vec<u8>) -> (r: Option<Vec<u8>>)
    requires
        program_id@.len() == 32,
    ensures
        match r {
            Some(a) => {
                &&& pda_at(tag@, seed@, nonce, program_id@) == Some(a@)
                &&& a@.len() == 32
            },
            None => pda_at(tag@, seed@, nonce, program_id@) is None,
        },
{
    let pid_bytes: [u8; 32] = program_id.as_slice().try_into().unwrap();
    let pid = anchor_lang::solana_program::pubkey::Pubkey::new_from_array(pid_bytes);
    let nonce_arr: [u8; 1] = [nonce];
    let seeds: [&[u8]; 3] = [tag.as_slice(), seed.as_slice(), &nonce_arr];
    anchor_lang::solana_program::pubkey::Pubkey::create_program_address(&seeds, &pid)
        .ok()
        .map(|addr| addr.to_bytes().to_vec())
}

/// Derives the custody address and its nonce for a tag and a seed. The
/// result is a pure function of the arguments: repeated calls on equal
/// inputs yield the identical address and nonce. The only failure is the
/// degenerate case where no valid nonce exists in the search space.
pub fn derive(tag: &Vec<u8>, seed: &Vec<u8>, program_id: &Vec<u8>) -> (r: Option<(Vec<u8>, u8)>)
    requires
        program_id@.len() == 32,
    ensures
        match r {
            Some(p) => {
                &&& pda_of(tag@, seed@, program_id@) == Some((p.0@, p.1))
                &&& pda_at(tag@, seed@, p.1, program_id@) == Some(p.0@)
                &&& p.0@.len() == 32
            },
            None => pda_of(tag@, seed@, program_id@) is None,
        },
{
    find_derived(tag, seed, program_id)
}

/// Re-derives the address selected by an exact nonce, as stored in a Vault
/// Record. `derive` followed by `derive_at` with the returned nonce
/// reproduces the same address.
pub fn derive_at(tag: &Vec<u8>, seed: &Vec<u8>, nonce: u8, program_id: &Vec<u8>) -> (r: Option<Vec<u8>>)
    requires
        program_id@.len() == 32,
    ensures
        match r {
            Some(a) => {
                &&& pda_at(tag@, seed@, nonce, program_id@) == Some(a@)
                &&& a@.len() == 32
            },
            None => pda_at(tag@, seed@, nonce, program_id@) is None,
        },
{
    find_derived_at(tag, seed, nonce, program_id)
}

/// Determinism of the Address Deriver: the derived address and nonce are a
/// pure function of the tag, the seed and the program id, so any two
/// derivations from equal inputs agree.
pub proof fn lemma_derive_deterministic(
    tag1: Seq<u8>, seed1: Seq<u8>, pid1: Seq<u8>,
    tag2: Seq<u8>, seed2: Seq<u8>, pid2: Seq<u8>,
)
    requires
        tag1 == tag2,
        seed1 == seed2,
        pid1 == pid2,
    ensures
        pda_of(tag1, seed1, pid1) == pda_of(tag2, seed2, pid2),
{
}

/// The tag under which a Vault Record's own address is derived from the
/// owning identity.
pub open spec fn spec_tag_state() -> Seq<u8> {
    seq![115u8, 116u8, 97u8, 116u8, 101u8]
}

/// The tag under which the custody address is derived from the Vault
/// Record's address.
pub open spec fn spec_tag_vault() -> Seq<u8> {
    seq![118u8, 97u8, 117u8, 108u8, 116u8]
}

/// The byte form of `spec_tag_state`.
pub fn tag_state() -> (r: Vec<u8>)
    ensures
        r@ == spec_tag_state(),
{
    let mut v: Vec<u8> = Vec::new();
    v.push(115u8);
    v.push(116u8);
    v.push(97u8);
    v.push(116u8);
    v.push(101u8);
    proof {
        assert(v@ =~= spec_tag_state());
    }
    v
}

/// The byte form of `spec_tag_vault`.
pub fn tag_vault() -> (r: Vec<u8>)
    ensures
        r@ == spec_tag_vault(),
{
    let mut v: Vec<u8> = Vec::new();
    v.push(118u8);
    v.push(97u8);
    v.push(117u8);
    v.push(108u8);
    v.push(116u8);
    proof {
        assert(v@ =~= spec_tag_vault());
    }
    v
}

/// Byte-for-byte equality of two addresses.
pub fn bytes_eq(a: &Vec<u8>, b: &Vec<u8>) -> (r: bool)
    ensures
        r == (a@ == b@),
{
    if a.len() != b.len() {
        return false;
    }
    let mut i: usize = 0;
    while i < a.len()
        invariant
            i <= a@.len(),
            a@.len() == b@.len(),
            forall|j: int| 0 <= j < i ==> a@[j] == b@[j],
        decreases a@.len() - i,
    {
        if a[i] != b[i] {
            return false;
        }
        i += 1;
    }
    proof {
        assert(a@ =~= b@);
    }
    true
}

} // verus!
