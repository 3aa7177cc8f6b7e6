//! Account addresses and their deterministic derivation from seeds.
use anchor_lang::prelude::Pubkey;
use vstd::prelude::*;

verus! {

broadcast use vstd::array::group_array_axioms;

/// A 32-byte account address (a public key or a program-derived address).
#[derive(Clone, Copy, Debug, PartialEq, Eq, Hash)]
pub struct Address {
    pub bytes: [u8; 32],
}

impl View for Address {
    type V = Seq<u8>;

    open spec fn view(&self) -> Seq<u8> {
        self.bytes@
    }
}

/// The address and bump seed that the runtime derives for `seeds` under
/// `program_id`, or `None` where no bump seed gives an off-curve address.
pub uninterp spec fn program_address(seeds: Seq<Seq<u8>>, program_id: Seq<u8>) -> Option<(Seq<u8>, u8)>;

/// The seed tag of event records: the bytes of "event".
pub open spec fn event_tag() -> Seq<u8> {
    seq![101u8, 118u8, 101u8, 110u8, 116u8]
}

/// The seed tag of user profile records: the bytes of "profile".
pub open spec fn profile_tag() -> Seq<u8> {
    seq![112u8, 114u8, 111u8, 102u8, 105u8, 108u8, 101u8]
}

/// The seeds of the event that `organizer` created under `event_id`.
pub open spec fn event_seeds(event_id: Seq<u8>, organizer: Seq<u8>) -> Seq<Seq<u8>> {
    seq![event_tag(), event_id, organizer]
}

/// The seeds of the profile of `user`.
pub open spec fn profile_seeds(user: Seq<u8>) -> Seq<Seq<u8>> {
    seq![profile_tag(), user]
}

/// Whether `r` is what deriving `seeds` under `program_id` gives.
pub open spec fn derives(seeds: Seq<Seq<u8>>, program_id: Seq<u8>, r: Option<(Address, u8)>) -> bool {
    match r {
        Some((a, bump)) => program_address(seeds, program_id) == Some((a@, bump)),
        None => program_address(seeds, program_id).is_none(),
    }
}

/// Addresses with the same bytes are the same address.
pub proof fn lemma_address_ext(a: Address, b: Address)
    requires
        a@ == b@,
    ensures
        a == b,
{
    assert forall|i: int| 0 <= i < 32 implies a.bytes[i] == b.bytes[i] by {
        assert(a.bytes@[i] == b.bytes@[i]);
    }
    assert(a.bytes =~= b.bytes);
}

/// Two results of the derivation of the same seeds under the same program are
/// the same address with the same bump seed.
pub proof fn lemma_derivation_deterministic(
    seeds: Seq<Seq<u8>>,
    program_id: Seq<u8>,
    r1: Option<(Address, u8)>,
    r2: Option<(Address, u8)>,
)
    requires
        derives(seeds, program_id, r1),
        derives(seeds, program_id, r2),
    ensures
        r1 == r2,
{
    if let (Some((a1, _)), Some((a2, _))) = (r1, r2) {
        lemma_address_ext(a1, a2);
    }
}

impl Address {
    /// Whether the two addresses are the same.
    pub fn same(&self, other: &Address) -> (r: bool)
        ensures
            r == (self@ == other@),
    {
        let mut i: usize = 0;
        while i < 32
            invariant
                i <= 32,
                forall|j: int| 0 <= j < i ==> self.bytes@[j] == other.bytes@[j],
            decreases 32 - i,
        {
            if self.bytes[i] != other.bytes[i] {
                return false;
            }
            i = i + 1;
        }
        assert(self.bytes@ =~= other.bytes@);
        true
    }
}

/// Relies on `Pubkey::try_find_program_address` (solana-program, through
/// anchor-lang): the program-derived address of `seeds` under `program_id`
/// and its bump seed, a function of the seeds and the program id alone.
#[verifier::external_body]
fn find_program_address(seeds: &Vec<Vec<u8>>, program_id: &Address) -> (r: Option<(Address, u8)>)
    ensures
        match r {
            Some((a, bump)) => program_address(seeds.deep_view(), program_id@) == Some((a@, bump)),
            None => program_address(seeds.deep_view(), program_id@).is_none(),
        },
{
    let slices: Vec<&[u8]> = seeds.iter().map(|s| s.as_slice()).collect();
    let pid = Pubkey::new_from_array(program_id.bytes);
    Pubkey::try_find_program_address(&slices, &pid)
        .map(|(key, bump)| (Address { bytes: key.to_bytes() }, bump))
}

/// Derives the address of the event that `organizer` creates under the
/// identifier whose UTF-8 bytes are `event_id`.
pub fn derive_event_address(program_id: &Address, event_id: &[u8], organizer: &Address) -> (r: Option<(Address, u8)>)
    ensures
        derives(event_seeds(event_id@, organizer@), program_id@, r),
{
    let tag: Vec<u8> = vec![101u8, 118u8, 101u8, 110u8, 116u8];
    let id: Vec<u8> = vstd::slice::slice_to_vec(event_id);
    let org: Vec<u8> = vstd::slice::slice_to_vec(vstd::array::array_as_slice(&organizer.bytes));
    assert(tag.deep_view() =~= event_tag());
    assert(id.deep_view() =~= event_id@);
    assert(org.deep_view() =~= organizer@);
    let seeds: Vec<Vec<u8>> = vec![tag, id, org];
    assert(seeds.deep_view() =~= event_seeds(event_id@, organizer@));
    find_program_address(&seeds, program_id)
}

/// Derives the address of the profile of `user`.
pub fn derive_profile_address(program_id: &Address, user: &Address) -> (r: Option<(Address, u8)>)
    ensures
        derives(profile_seeds(user@), program_id@, r),
{
    let tag: Vec<u8> = vec![112u8, 114u8, 111u8, 102u8, 105u8, 108u8, 101u8];
    let key: Vec<u8> = vstd::slice::slice_to_vec(vstd::array::array_as_slice(&user.bytes));
    assert(tag.deep_view() =~= profile_tag());
    assert(key.deep_view() =~= user@);
    let seeds: Vec<Vec<u8>> = vec![tag, key];
    assert(seeds.deep_view() =~= profile_seeds(user@));
    find_program_address(&seeds, program_id)
}

} // verus!
