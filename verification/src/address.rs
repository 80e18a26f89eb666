//! Deterministic addresses of records and custody balances.
//!
//! Every record lives at the address that its domain tag, the identities it
//! belongs to and its label derive. The derivation itself is not part of this
//! library: it is named here, and the operations are stated over that name.

use vstd::prelude::*;
use vstd::string::StrSliceExecFns;
use vstd::utf8::encode_utf8;
use crate::identity::Identity;

verus! {

/// The address and bump that `seeds` derive under `program_id`, or `None`
/// where they derive none.
pub uninterp spec fn program_address(
    seeds: Seq<Seq<u8>>,
    program_id: Seq<u8>,
) -> Option<(Seq<u8>, u8)>;

/// Calls `Pubkey::try_find_program_address` of anchor_lang. The contract
/// claims that what it returns depends on the seeds and the program identity
/// alone, and gives that result its name; and that seeds of which one has
/// more than 32 bytes derive nothing. Nothing else is claimed of its value.
#[verifier::external_body]
pub(crate) fn find_program_address(
    seeds: &Vec<Vec<u8>>,
    program_id: &Identity,
) -> (r: Option<(Identity, u8)>)
    ensures
        derived(r) == program_address(seeds.deep_view(), program_id@),
        has_long_seed(seeds.deep_view()) ==> r is None,
{
    let parts: Vec<&[u8]> = seeds.iter().map(|s| s.as_slice()).collect();
    let id = anchor_lang::prelude::Pubkey::new_from_array(program_id.bytes);
    match anchor_lang::prelude::Pubkey::try_find_program_address(&parts, &id) {
        Some((key, bump)) => Some((Identity { bytes: key.to_bytes() }, bump)),
        None => None,
    }
}

/// The greatest number of bytes in one seed.
pub const MAX_SEED_LEN: usize = 32;

/// Whether one of the seeds has more bytes than a seed may have.
pub open spec fn has_long_seed(seeds: Seq<Seq<u8>>) -> bool {
    exists|i: int| 0 <= i < seeds.len() && (#[trigger] seeds[i]).len() > MAX_SEED_LEN
}

/// A derived address and bump as plain values.
pub open spec fn derived(r: Option<(Identity, u8)>) -> Option<(Seq<u8>, u8)> {
    match r {
        Some((key, bump)) => Some((key@, bump)),
        None => None,
    }
}

/// Whether `key` is the address that was derived.
pub open spec fn is_derived_address(found: Option<(Seq<u8>, u8)>, key: Seq<u8>) -> bool {
    match found {
        Some((address, _)) => address == key,
        None => false,
    }
}

/// The seeds of a vault: its tag, the administrative authority and the vault's label.
pub open spec fn vault_account_seeds(admin: Seq<u8>, label: Seq<char>) -> Seq<Seq<u8>> {
    seq![encode_utf8("vault_account"@), admin, encode_utf8(label)]
}

/// The seeds of a rental session: its tag, the renter and the lease's id.
pub open spec fn rental_session_seeds(user: Seq<u8>, id: Seq<char>) -> Seq<Seq<u8>> {
    seq![encode_utf8("rental_session"@), user, encode_utf8(id)]
}

/// The seeds of an escrow session: its tag, the renter and the lease's id.
pub open spec fn escrow_session_seeds(user: Seq<u8>, id: Seq<char>) -> Seq<Seq<u8>> {
    seq![encode_utf8("escrow_session"@), user, encode_utf8(id)]
}

/// The seeds of an escrow custody address: its tag, the renter, the
/// administrative authority and the lease's id.
pub open spec fn escrow_vault_seeds(user: Seq<u8>, admin: Seq<u8>, id: Seq<char>) -> Seq<Seq<u8>> {
    seq![encode_utf8("escrow_vault"@), user, admin, encode_utf8(id)]
}

/// The seeds of a host registration: its tag, the host and the machine's id.
pub open spec fn host_machine_seeds(host: Seq<u8>, id: Seq<char>) -> Seq<Seq<u8>> {
    seq![encode_utf8("host_machine"@), host, encode_utf8(id)]
}

/// The seeds made of a tag, one identity and a label.
fn keyed_seeds(tag: &str, key: &Identity, label: &str) -> (seeds: Vec<Vec<u8>>)
    ensures
        seeds.deep_view() == seq![encode_utf8(tag@), key@, encode_utf8(label@)],
{
    let mut seeds: Vec<Vec<u8>> = Vec::new();
    seeds.push(tag.as_bytes_vec());
    seeds.push(key.to_vec());
    seeds.push(label.as_bytes_vec());
    proof {
        let expected = seq![encode_utf8(tag@), key@, encode_utf8(label@)];
        assert(seeds@[0].deep_view() =~= seeds@[0]@);
        assert(seeds@[1].deep_view() =~= seeds@[1]@);
        assert(seeds@[2].deep_view() =~= seeds@[2]@);
        assert(seeds.deep_view() =~= expected);
    }
    seeds
}

/// The address and bump of the vault of `admin` labelled `secret_key`.
pub fn vault_account_address(
    admin: &Identity,
    secret_key: &String,
    program_id: &Identity,
) -> (r: Option<(Identity, u8)>)
    ensures
        derived(r) == program_address(vault_account_seeds(admin@, secret_key@), program_id@),
        encode_utf8(secret_key@).len() > MAX_SEED_LEN ==> r is None,
{
    let seeds = keyed_seeds("vault_account", admin, secret_key.as_str());
    assert(seeds.deep_view()[2] == encode_utf8(secret_key@));
    find_program_address(&seeds, program_id)
}

/// The address and bump of the rental session of `user` for the lease `id`.
pub fn rental_session_address(
    user: &Identity,
    id: &String,
    program_id: &Identity,
) -> (r: Option<(Identity, u8)>)
    ensures
        derived(r) == program_address(rental_session_seeds(user@, id@), program_id@),
        encode_utf8(id@).len() > MAX_SEED_LEN ==> r is None,
{
    let seeds = keyed_seeds("rental_session", user, id.as_str());
    assert(seeds.deep_view()[2] == encode_utf8(id@));
    find_program_address(&seeds, program_id)
}

/// The address and bump of the escrow session of `user` for the lease `id`.
pub fn escrow_session_address(
    user: &Identity,
    id: &String,
    program_id: &Identity,
) -> (r: Option<(Identity, u8)>)
    ensures
        derived(r) == program_address(escrow_session_seeds(user@, id@), program_id@),
        encode_utf8(id@).len() > MAX_SEED_LEN ==> r is None,
{
    let seeds = keyed_seeds("escrow_session", user, id.as_str());
    assert(seeds.deep_view()[2] == encode_utf8(id@));
    find_program_address(&seeds, program_id)
}

/// The custody address and bump of the escrow of `user` for the lease `id`
/// under the authority `admin`.
pub fn escrow_vault_address(
    user: &Identity,
    admin: &Identity,
    id: &String,
    program_id: &Identity,
) -> (r: Option<(Identity, u8)>)
    ensures
        derived(r) == program_address(escrow_vault_seeds(user@, admin@, id@), program_id@),
        encode_utf8(id@).len() > MAX_SEED_LEN ==> r is None,
{
    let mut seeds: Vec<Vec<u8>> = Vec::new();
    seeds.push("escrow_vault".as_bytes_vec());
    seeds.push(user.to_vec());
    seeds.push(admin.to_vec());
    seeds.push(id.as_str().as_bytes_vec());
    proof {
        assert(seeds@[0].deep_view() =~= seeds@[0]@);
        assert(seeds@[1].deep_view() =~= seeds@[1]@);
        assert(seeds@[2].deep_view() =~= seeds@[2]@);
        assert(seeds@[3].deep_view() =~= seeds@[3]@);
        assert(seeds.deep_view() =~= escrow_vault_seeds(user@, admin@, id@));
        assert(seeds.deep_view()[3] == encode_utf8(id@));
    }
    find_program_address(&seeds, program_id)
}

/// The address and bump of the registration of the machine `id` hosted by `host`.
pub fn host_machine_address(
    host: &Identity,
    id: &String,
    program_id: &Identity,
) -> (r: Option<(Identity, u8)>)
    ensures
        derived(r) == program_address(host_machine_seeds(host@, id@), program_id@),
        encode_utf8(id@).len() > MAX_SEED_LEN ==> r is None,
{
    let seeds = keyed_seeds("host_machine", host, id.as_str());
    assert(seeds.deep_view()[2] == encode_utf8(id@));
    find_program_address(&seeds, program_id)
}

} // verus!
