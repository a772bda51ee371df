//! Addresses of wallets, programs and records, and how the address of a
//! record is derived from its parent and a discriminating key.
//!
//! No record is stored at an address of the caller's choosing: its address is
//! a function of the program, a tag for the kind of record, the address of its
//! parent and a key. Whoever knows these can compute the address again, and
//! the ledger does so for every record it is handed.

use vstd::bytes::{spec_u64_to_le_bytes, u64_to_le_bytes};
use vstd::prelude::*;
use vstd::slice::slice_to_vec;
use vstd::std_specs::cmp::PartialEqSpecImpl;
use vstd::string::StringSliceAdditionalSpecFns;

verus! {

/// The 32 bytes by which a wallet, a program or a record is found.
#[derive(Clone, Copy, Debug)]
pub struct Address {
    pub bytes: [u8; 32],
}

impl View for Address {
    type V = Seq<u8>;

    open spec fn view(&self) -> Seq<u8> {
        self.bytes@
    }
}

impl PartialEq for Address {
    fn eq(&self, other: &Self) -> (same: bool) {
        let mut i: usize = 0;
        while i < 32
            invariant
                i <= 32,
                forall|j: int| 0 <= j < i ==> self.bytes[j] == other.bytes[j],
            decreases 32 - i,
        {
            if self.bytes[i] != other.bytes[i] {
                return false;
            }
            i = i + 1;
        }
        assert(self.bytes@ =~= other.bytes@);
        true
    }
}

impl PartialEqSpecImpl for Address {
    open spec fn obeys_eq_spec() -> bool {
        true
    }

    open spec fn eq_spec(&self, other: &Self) -> bool {
        self@ == other@
    }
}

impl Eq for Address {

}

impl Address {
    /// The address made of the given bytes.
    pub fn new(bytes: [u8; 32]) -> (address: Address)
        ensures
            address.bytes == bytes,
    {
        Address { bytes }
    }

    /// The bytes of the address, as a seed for a derivation.
    pub fn to_seed(&self) -> (seed: Vec<u8>)
        ensures
            seed@ == self@,
    {
        slice_to_vec(self.bytes.as_slice())
    }
}

/// Two addresses are the same value exactly when their bytes agree.
pub proof fn lemma_address_by_view(a: Address, b: Address)
    ensures
        (a == b) <==> (a@ == b@),
{
    if a@ == b@ {
        assert(a.bytes@ =~= b.bytes@);
        assert(a.bytes == b.bytes);
    }
}

/// The address, with its bump seed, that a program derives from a list of
/// seeds; `None` where the list derives none.
pub uninterp spec fn program_address(seeds: Seq<Seq<u8>>, program_id: Seq<u8>) -> Option<
    (Seq<u8>, u8),
>;

/// The greatest length of one seed, in bytes.
pub const MAX_SEED_LEN: usize = 32;

/// Calls `Pubkey::try_find_program_address` of `anchor_lang::solana_program`.
/// The derivation hashes its arguments and nothing else, so the outcome is
/// named `program_address` of the seeds and the program's bytes: the address
/// and bump seed found, or `None` where the call finds none. It finds none
/// where a seed is longer than `MAX_SEED_LEN` bytes: the call turns such a
/// list of seeds down before it hashes anything.
#[verifier::external_body]
fn find_program_address(seeds: &Vec<Vec<u8>>, program_id: &Address) -> (found: Option<
    (Address, u8),
>)
    ensures
        match found {
            Some((address, bump)) => program_address(seeds.deep_view(), program_id@) == Some(
                (address@, bump),
            ),
            None => program_address(seeds.deep_view(), program_id@) is None,
        },
        (exists|i: int| 0 <= i < seeds@.len() && (#[trigger] seeds@[i])@.len() > MAX_SEED_LEN)
            ==> found is None,
{
    let parts: Vec<&[u8]> = seeds.iter().map(|seed| seed.as_slice()).collect();
    let program = anchor_lang::solana_program::pubkey::Pubkey::new_from_array(program_id.bytes);
    match anchor_lang::solana_program::pubkey::Pubkey::try_find_program_address(&parts, &program) {
        Some((key, bump)) => Some((Address { bytes: key.to_bytes() }, bump)),
        None => None,
    }
}

/// Whether `found` is what the program derives from the seeds: the address
/// and bump seed, or `None` where the seeds derive none.
pub open spec fn is_derived(
    found: Option<(Address, u8)>,
    seeds: Seq<Seq<u8>>,
    program_id: Address,
) -> bool {
    match found {
        Some((address, bump)) => program_address(seeds, program_id@) == Some((address@, bump)),
        None => program_address(seeds, program_id@) is None,
    }
}

/// Whether a record found at `key` sits where the seeds put it.
pub open spec fn sits_at(key: Address, seeds: Seq<Seq<u8>>, program_id: Address) -> bool {
    program_address(seeds, program_id@) matches Some((bytes, _)) && bytes == key@
}

/// The bump seed of the derivation from the seeds.
pub open spec fn bump_of(seeds: Seq<Seq<u8>>, program_id: Address) -> u8
    recommends
        program_address(seeds, program_id@) is Some,
{
    match program_address(seeds, program_id@) {
        Some((_, bump)) => bump,
        None => 0,
    }
}

/// Whether a record found at `key`, which remembers `bump`, sits where the
/// seeds put it and remembers the bump seed of its derivation.
pub open spec fn sits_at_with(
    key: Address,
    bump: u8,
    seeds: Seq<Seq<u8>>,
    program_id: Address,
) -> bool {
    program_address(seeds, program_id@) == Some((key@, bump))
}

/// The bytes of a tag that names a kind of record.
pub open spec fn tag(name: &str) -> Seq<u8> {
    name.spec_bytes()
}

/// Seeds of the one registry of a program.
pub open spec fn factory_seeds() -> Seq<Seq<u8>> {
    seq![tag("factory")]
}

/// Seeds of the property with the given number under a registry.
pub open spec fn property_seeds(factory: Address, property_id: u64) -> Seq<Seq<u8>> {
    seq![tag("property"), factory@, spec_u64_to_le_bytes(property_id)]
}

/// Seeds of the unit with the given number under a property.
pub open spec fn share_nft_seeds(property: Address, token_id: u64) -> Seq<Seq<u8>> {
    seq![tag("share_nft"), property@, spec_u64_to_le_bytes(token_id)]
}

/// Seeds of the proposal with the given number under a property.
pub open spec fn proposal_seeds(property: Address, proposal_id: u64) -> Seq<Seq<u8>> {
    seq![tag("proposal"), property@, spec_u64_to_le_bytes(proposal_id)]
}

/// Seeds of the vote that a unit casts on a proposal.
pub open spec fn vote_seeds(proposal: Address, share_nft: Address) -> Seq<Seq<u8>> {
    seq![tag("vote"), proposal@, share_nft@]
}

/// Seeds of the membership record of a wallet under a registry.
pub open spec fn team_member_seeds(factory: Address, wallet: Address) -> Seq<Seq<u8>> {
    seq![tag("team_member"), factory@, wallet@]
}

/// Seeds of the record of the transfer of a unit with the given sequence number.
pub open spec fn transfer_seeds(share_nft: Address, transfer_count: u64) -> Seq<Seq<u8>> {
    seq![tag("transfer"), share_nft@, spec_u64_to_le_bytes(transfer_count)]
}

/// Seeds of the statistics of a property.
pub open spec fn property_stats_seeds(property: Address) -> Seq<Seq<u8>> {
    seq![tag("property_stats"), property@]
}

/// Seeds of the entry of a property's metadata under the given key.
pub open spec fn property_metadata_seeds(property: Address, metadata_key: Seq<char>) -> Seq<
    Seq<u8>,
> {
    seq![tag("property_metadata"), property@, vstd::utf8::encode_utf8(metadata_key)]
}

/// Whether two addresses are the same.
pub fn same(a: &Address, b: &Address) -> (yes: bool)
    ensures
        yes == (*a == *b),
{
    proof {
        lemma_address_by_view(*a, *b);
    }
    *a == *b
}

/// The bump seed of a derivation, where it leads to `key`.
pub fn bump_at(found: Option<(Address, u8)>, key: &Address) -> (bump: Option<u8>)
    ensures
        bump == match found {
            Some((address, b)) => if address == *key {
                Some(b)
            } else {
                None
            },
            None => None,
        },
{
    match found {
        Some((address, b)) => if same(&address, key) {
            Some(b)
        } else {
            None
        },
        None => None,
    }
}

/// What a derivation that was made says of a record found at `key`.
pub proof fn lemma_derived_sits(
    found: Option<(Address, u8)>,
    key: Address,
    seeds: Seq<Seq<u8>>,
    program_id: Address,
)
    requires
        is_derived(found, seeds, program_id),
    ensures
        sits_at(key, seeds, program_id) <==> (found matches Some((address, _)) && address == key),
        found matches Some((_, bump)) ==> bump == bump_of(seeds, program_id),
        forall|bump: u8|
            sits_at_with(key, bump, seeds, program_id) <==> found == Some((key, bump)),
{
    match found {
        Some((address, b)) => {
            lemma_address_by_view(address, key);
        },
        None => {},
    }
}

fn tag_bytes(name: &str) -> (bytes: Vec<u8>)
    ensures
        bytes@ == tag(name),
{
    slice_to_vec(name.as_bytes())
}

fn derive1(program_id: &Address, a: Vec<u8>) -> (found: Option<(Address, u8)>)
    ensures
        is_derived(found, seq![a@], *program_id),
{
    let mut seeds: Vec<Vec<u8>> = Vec::new();
    seeds.push(a);
    assert(seeds.deep_view() =~~= seq![a@]);
    find_program_address(&seeds, program_id)
}

fn derive2(program_id: &Address, a: Vec<u8>, b: Vec<u8>) -> (found: Option<(Address, u8)>)
    ensures
        is_derived(found, seq![a@, b@], *program_id),
{
    let mut seeds: Vec<Vec<u8>> = Vec::new();
    seeds.push(a);
    seeds.push(b);
    assert(seeds.deep_view() =~~= seq![a@, b@]);
    find_program_address(&seeds, program_id)
}

fn derive3(program_id: &Address, a: Vec<u8>, b: Vec<u8>, c: Vec<u8>) -> (found: Option<
    (Address, u8),
>)
    ensures
        is_derived(found, seq![a@, b@, c@], *program_id),
        c@.len() > MAX_SEED_LEN ==> found is None,
{
    let mut seeds: Vec<Vec<u8>> = Vec::new();
    seeds.push(a);
    seeds.push(b);
    seeds.push(c);
    assert(seeds.deep_view() =~~= seq![a@, b@, c@]);
    assert(seeds@[2]@ == c@);
    find_program_address(&seeds, program_id)
}

/// Where the registry of a program sits.
pub fn factory_address(program_id: &Address) -> (found: Option<(Address, u8)>)
    ensures
        is_derived(found, factory_seeds(), *program_id),
{
    derive1(program_id, tag_bytes("factory"))
}

/// Where the property with the given number sits.
pub fn property_address(program_id: &Address, factory: &Address, property_id: u64) -> (found:
    Option<(Address, u8)>)
    ensures
        is_derived(found, property_seeds(*factory, property_id), *program_id),
{
    derive3(program_id, tag_bytes("property"), factory.to_seed(), u64_to_le_bytes(property_id))
}

/// Where the unit with the given number sits.
pub fn share_nft_address(program_id: &Address, property: &Address, token_id: u64) -> (found:
    Option<(Address, u8)>)
    ensures
        is_derived(found, share_nft_seeds(*property, token_id), *program_id),
{
    derive3(program_id, tag_bytes("share_nft"), property.to_seed(), u64_to_le_bytes(token_id))
}

/// Where the proposal with the given number sits.
pub fn proposal_address(program_id: &Address, property: &Address, proposal_id: u64) -> (found:
    Option<(Address, u8)>)
    ensures
        is_derived(found, proposal_seeds(*property, proposal_id), *program_id),
{
    derive3(program_id, tag_bytes("proposal"), property.to_seed(), u64_to_le_bytes(proposal_id))
}

/// Where the vote of a unit on a proposal sits.
pub fn vote_address(program_id: &Address, proposal: &Address, share_nft: &Address) -> (found:
    Option<(Address, u8)>)
    ensures
        is_derived(found, vote_seeds(*proposal, *share_nft), *program_id),
{
    derive3(program_id, tag_bytes("vote"), proposal.to_seed(), share_nft.to_seed())
}

/// Where the membership record of a wallet sits.
pub fn team_member_address(program_id: &Address, factory: &Address, wallet: &Address) -> (found:
    Option<(Address, u8)>)
    ensures
        is_derived(found, team_member_seeds(*factory, *wallet), *program_id),
{
    derive3(program_id, tag_bytes("team_member"), factory.to_seed(), wallet.to_seed())
}

/// Where the record of a unit's transfer with the given sequence number sits.
pub fn transfer_address(program_id: &Address, share_nft: &Address, transfer_count: u64) -> (found:
    Option<(Address, u8)>)
    ensures
        is_derived(found, transfer_seeds(*share_nft, transfer_count), *program_id),
{
    derive3(program_id, tag_bytes("transfer"), share_nft.to_seed(), u64_to_le_bytes(transfer_count))
}

/// Where the statistics of a property sit.
pub fn property_stats_address(program_id: &Address, property: &Address) -> (found: Option<
    (Address, u8),
>)
    ensures
        is_derived(found, property_stats_seeds(*property), *program_id),
{
    derive2(program_id, tag_bytes("property_stats"), property.to_seed())
}

/// Where the entry of a property's metadata under the given key sits.
pub fn property_metadata_address(program_id: &Address, property: &Address, metadata_key: &str) -> (found:
    Option<(Address, u8)>)
    ensures
        is_derived(found, property_metadata_seeds(*property, metadata_key@), *program_id),
        vstd::utf8::encode_utf8(metadata_key@).len() > MAX_SEED_LEN ==> found is None,
{
    derive3(
        program_id,
        tag_bytes("property_metadata"),
        property.to_seed(),
        slice_to_vec(metadata_key.as_bytes()),
    )
}

} // verus!
