//! Fixed-width public keys and the derivation of program addresses.
use vstd::prelude::*;

verus! {

/// A 32-byte opaque public key.
#[derive(Clone, Copy, Debug)]
pub struct Pubkey {
    pub bytes: [u8; 32],
}

impl View for Pubkey {
    type V = Seq<u8>;

    open spec fn view(&self) -> Seq<u8> {
        self.bytes@
    }
}

impl PartialEq for Pubkey {
    fn eq(&self, other: &Pubkey) -> (r: bool) {
        let mut i: usize = 0;
        while i < 32
            invariant
                i <= 32,
                forall|j: int| 0 <= j < i ==> self.bytes[j] == other.bytes[j],
            decreases 32 - i,
        {
            if self.bytes[i] != other.bytes[i] {
                return false;
            }
            i += 1;
        }
        assert(self.bytes =~= other.bytes);
        true
    }
}

impl vstd::std_specs::cmp::PartialEqSpecImpl for Pubkey {
    open spec fn obeys_eq_spec() -> bool {
        true
    }

    open spec fn eq_spec(&self, other: &Pubkey) -> bool {
        *self == *other
    }
}

impl Eq for Pubkey {}

impl Pubkey {
    /// Wraps 32 raw bytes as a key.
    pub fn new_from_array(bytes: [u8; 32]) -> (r: Pubkey)
        ensures
            r.bytes == bytes,
    {
        Pubkey { bytes }
    }

    /// The key's bytes as an owned vector.
    pub fn to_vec(&self) -> (r: Vec<u8>)
        ensures
            r@ == self@,
    {
        let mut v: Vec<u8> = Vec::new();
        let mut i: usize = 0;
        while i < 32
            invariant
                i <= 32,
                v@ == self@.subrange(0, i as int),
            decreases 32 - i,
        {
            v.push(self.bytes[i]);
            assert(v@ =~= self@.subrange(0, i + 1));
            i += 1;
        }
        assert(v@ =~= self@);
        v
    }
}

/// The address and bump seed that the runtime derives from `seeds` for the
/// program `program_id`, or `None` where no bump seed yields one.
pub uninterp spec fn program_address(seeds: Seq<Seq<u8>>, program_id: Seq<u8>) -> Option<(Seq<u8>, u8)>;

/// The seeds of a vector of byte strings, each as a sequence of bytes.
pub open spec fn seeds_view(seeds: Seq<Vec<u8>>) -> Seq<Seq<u8>> {
    seeds.map_values(|s: Vec<u8>| s@)
}

/// Calls `Pubkey::try_find_program_address` of solana-program. The result is a
/// function of the seeds and the program id alone; it is `None` where the seeds
/// are too many or too long, or where no bump seed gives an off-curve address.
#[verifier::external_body]
pub(crate) fn try_find_program_address(seeds: &Vec<Vec<u8>>, program_id: &Pubkey) -> (r: Option<(Pubkey, u8)>)
    ensures
        match r {
            Some((key, bump)) => program_address(seeds_view(seeds@), program_id@) == Some((key@, bump)),
            None => program_address(seeds_view(seeds@), program_id@) is None,
        },
{
    let refs: Vec<&[u8]> = seeds.iter().map(|s| s.as_slice()).collect();
    let id = solana_program::pubkey::Pubkey::new_from_array(program_id.bytes);
    match solana_program::pubkey::Pubkey::try_find_program_address(&refs, &id) {
        Some((key, bump)) => Some((Pubkey { bytes: key.to_bytes() }, bump)),
        None => None,
    }
}

/// The key whose bytes are `s`.
pub open spec fn pubkey_of(s: Seq<u8>) -> Pubkey {
    Pubkey { bytes: choose|a: [u8; 32]| a@ == s }
}

/// The key of 32 zero bytes, which stands in a field that a layout does not store.
pub open spec fn zero_key() -> Pubkey {
    pubkey_of(Seq::new(32, |i: int| 0u8))
}

/// A key is the key of its own bytes.
pub proof fn lemma_pubkey_of(k: Pubkey)
    ensures
        pubkey_of(k@) == k,
        k@.len() == 32,
{
    let a = choose|a: [u8; 32]| a@ == k@;
    assert(k.bytes@ == k@);
    assert(a =~= k.bytes);
}

/// The key of 32 zero bytes.
pub fn zero_pubkey() -> (r: Pubkey)
    ensures
        r == zero_key(),
{
    let r = Pubkey { bytes: [0u8; 32] };
    proof {
        assert(r@ =~= Seq::new(32, |i: int| 0u8));
        lemma_pubkey_of(r);
    }
    r
}

/// The address and bump seed derived from `seeds` for `program`, as a key.
pub open spec fn derived(seeds: Seq<Seq<u8>>, program: Pubkey) -> Option<(Pubkey, u8)> {
    match program_address(seeds, program@) {
        Some((key, bump)) => Some((pubkey_of(key), bump)),
        None => None,
    }
}

/// Derives the address and bump seed of `seeds` for the program `program_id`.
pub fn find_program_address(seeds: &Vec<Vec<u8>>, program_id: &Pubkey) -> (r: Option<(Pubkey, u8)>)
    ensures
        r == derived(seeds_view(seeds@), *program_id),
{
    match try_find_program_address(seeds, program_id) {
        Some((key, bump)) => {
            proof {
                lemma_pubkey_of(key);
            }
            Some((key, bump))
        },
        None => None,
    }
}

} // verus!
