//! Account identities and the derivation of program-owned addresses.
use vstd::prelude::*;

verus! {

broadcast use vstd::array::group_array_axioms;

/// The all-zero identity, the "not yet set" sentinel of identity fields.
pub open spec fn zero_address() -> Address {
    Address { bytes: vstd::array::spec_array_fill_for_copy_type::<u8, 32>(0u8) }
}

/// A 32-byte account identity.
#[derive(Clone, Copy, Debug, Hash)]
pub struct Address {
    pub bytes: [u8; 32],
}

impl PartialEq for Address {
    fn eq(&self, o: &Address) -> (r: bool)
        ensures
            r == (*self == *o),
    {
        let mut i: usize = 0;
        while i < 32
            invariant
                0 <= i <= 32,
                forall|j: int| 0 <= j < i ==> self.bytes[j] == o.bytes[j],
            decreases 32 - i,
        {
            if self.bytes[i] != o.bytes[i] {
                return false;
            }
            i = i + 1;
        }
        assert(self.bytes =~= o.bytes);
        true
    }
}

impl Eq for Address {}

impl vstd::std_specs::cmp::PartialEqSpecImpl for Address {
    open spec fn obeys_eq_spec() -> bool {
        true
    }

    open spec fn eq_spec(&self, o: &Address) -> bool {
        *self == *o
    }
}

impl Address {
    /// The all-zero identity.
    pub fn zero() -> (r: Address)
        ensures
            r == zero_address(),
    {
        let r = Address { bytes: [0u8; 32] };
        assert(r.bytes =~= zero_address().bytes);
        r
    }

    /// Whether this is the zero sentinel.
    pub open spec fn is_zero_spec(self) -> bool {
        self == zero_address()
    }

    /// The identity made of `bytes`.
    pub fn new(bytes: [u8; 32]) -> (r: Address)
        ensures
            r.bytes == bytes,
    {
        Address { bytes }
    }

    pub fn is_zero(&self) -> (r: bool)
        ensures
            r == self.is_zero_spec(),
    {
        let z = Address::zero();
        *self == z
    }
}

/// What `Pubkey::try_find_program_address(seeds, program_id)` returns: the
/// program-derived address with its bump byte, or `None` when no bump gives
/// a valid address.
pub uninterp spec fn program_address_of(seeds: Seq<Seq<u8>>, program_id: Seq<u8>) -> Option<(Seq<u8>, u8)>;

/// `r` is the derivation `d` of some seeds, as found by
/// `Pubkey::try_find_program_address`.
pub open spec fn is_derivation(r: Option<(Address, u8)>, d: Option<(Seq<u8>, u8)>) -> bool {
    &&& (r is Some <==> d is Some)
    &&& (r is Some ==> r.unwrap().0.bytes@ == d.unwrap().0 && r.unwrap().1 == d.unwrap().1)
}

/// Relies on `Pubkey::try_find_program_address` of solana-program: the
/// derived address and bump depend on the seeds and the program id alone.
#[verifier::external_body]
fn find_program_address(seeds: &Vec<Vec<u8>>, program_id: &Address) -> (r: Option<(Address, u8)>)
    ensures
        is_derivation(r, program_address_of(seeds@.map_values(|s: Vec<u8>| s@), program_id.bytes@)),
{
    let slices: Vec<&[u8]> = seeds.iter().map(|s| s.as_slice()).collect();
    let program = anchor_lang::prelude::Pubkey::new_from_array(program_id.bytes);
    anchor_lang::prelude::Pubkey::try_find_program_address(&slices, &program).map(
        |(k, bump)| (Address { bytes: k.to_bytes() }, bump),
    )
}

/// The bytes of an identity, as a seed.
fn key_seed(a: &Address) -> (r: Vec<u8>)
    ensures
        r@ == a.bytes@,
{
    let mut r: Vec<u8> = Vec::new();
    let mut i: usize = 0;
    while i < 32
        invariant
            0 <= i <= 32,
            r@ == a.bytes@.subrange(0, i as int),
        decreases 32 - i,
    {
        r.push(a.bytes[i]);
        i = i + 1;
    }
    assert(a.bytes@.subrange(0, 32) =~= a.bytes@);
    r
}

/// The derivation of a tag alone.
fn derive0(tag: Vec<u8>, program_id: &Address) -> (r: Option<(Address, u8)>)
    ensures
        is_derivation(r, program_address_of(seq![tag@], program_id.bytes@)),
{
    let ghost t = tag@;
    let mut seeds: Vec<Vec<u8>> = Vec::new();
    seeds.push(tag);
    assert(seeds@.map_values(|s: Vec<u8>| s@) =~= seq![t]);
    find_program_address(&seeds, program_id)
}

/// The derivation of a tag followed by one identity.
fn derive1(tag: Vec<u8>, key: &Address, program_id: &Address) -> (r: Option<(Address, u8)>)
    ensures
        is_derivation(r, program_address_of(seq![tag@, key.bytes@], program_id.bytes@)),
{
    let ghost t = tag@;
    let mut seeds: Vec<Vec<u8>> = Vec::new();
    seeds.push(tag);
    seeds.push(key_seed(key));
    assert(seeds@.map_values(|s: Vec<u8>| s@) =~= seq![t, key.bytes@]);
    find_program_address(&seeds, program_id)
}

/// The ASCII bytes of `config`.
pub open spec fn config_tag() -> Seq<u8> {
    seq![99u8, 111, 110, 102, 105, 103]
}

/// The ASCII bytes of `business`.
pub open spec fn business_tag() -> Seq<u8> {
    seq![98u8, 117, 115, 105, 110, 101, 115, 115]
}

/// The ASCII bytes of `mint`.
pub open spec fn mint_tag() -> Seq<u8> {
    seq![109u8, 105, 110, 116]
}

/// The ASCII bytes of `mint_authority`.
pub open spec fn mint_authority_tag() -> Seq<u8> {
    mint_tag() + seq![95u8, 97, 117, 116, 104, 111, 114, 105, 116, 121]
}

/// The ASCII bytes of `share_mint`.
pub open spec fn share_mint_tag() -> Seq<u8> {
    seq![115u8, 104, 97, 114, 101, 95] + mint_tag()
}

/// The ASCII bytes of `share_mint_authority`.
pub open spec fn share_mint_authority_tag() -> Seq<u8> {
    seq![115u8, 104, 97, 114, 101, 95] + mint_authority_tag()
}

/// The ASCII bytes of `shares_vault`.
pub open spec fn shares_vault_tag() -> Seq<u8> {
    seq![115u8, 104, 97, 114, 101, 115, 95, 118, 97, 117, 108, 116]
}

/// The ASCII bytes of `offering`.
pub open spec fn offering_tag() -> Seq<u8> {
    seq![111u8, 102, 102, 101, 114, 105, 110, 103]
}

/// Address of the configuration: tag `config` alone.
pub fn config_address(program_id: &Address) -> (r: Option<(Address, u8)>)
    ensures
        is_derivation(r, program_address_of(seq![config_tag()], program_id.bytes@)),
{
    let tag: Vec<u8> = vec![99u8, 111, 110, 102, 105, 103];
    assert(tag@ =~= config_tag());
    derive0(tag, program_id)
}

/// Address of the business of `owner`: tag `business` and the owner.
pub fn business_address(owner: &Address, program_id: &Address) -> (r: Option<(Address, u8)>)
    ensures
        is_derivation(r, program_address_of(seq![business_tag(), owner.bytes@], program_id.bytes@)),
{
    let tag: Vec<u8> = vec![98u8, 117, 115, 105, 110, 101, 115, 115];
    assert(tag@ =~= business_tag());
    derive1(tag, owner, program_id)
}

/// Address of the legacy mint of a business: tag `mint` and the business.
pub fn mint_address(business: &Address, program_id: &Address) -> (r: Option<(Address, u8)>)
    ensures
        is_derivation(r, program_address_of(seq![mint_tag(), business.bytes@], program_id.bytes@)),
{
    let tag: Vec<u8> = vec![109u8, 105, 110, 116];
    assert(tag@ =~= mint_tag());
    derive1(tag, business, program_id)
}

/// Address of the legacy mint authority: tag `mint_authority` and the business.
pub fn mint_authority_address(business: &Address, program_id: &Address) -> (r: Option<(Address, u8)>)
    ensures
        is_derivation(r, program_address_of(seq![mint_authority_tag(), business.bytes@], program_id.bytes@)),
{
    let tag: Vec<u8> = vec![109u8, 105, 110, 116, 95, 97, 117, 116, 104, 111, 114, 105, 116, 121];
    assert(tag@ =~= mint_authority_tag());
    derive1(tag, business, program_id)
}

/// Address of the share mint: tag `share_mint` and the business.
pub fn share_mint_address(business: &Address, program_id: &Address) -> (r: Option<(Address, u8)>)
    ensures
        is_derivation(r, program_address_of(seq![share_mint_tag(), business.bytes@], program_id.bytes@)),
{
    let tag: Vec<u8> = vec![115u8, 104, 97, 114, 101, 95, 109, 105, 110, 116];
    assert(tag@ =~= share_mint_tag());
    derive1(tag, business, program_id)
}

/// Address of the share mint authority: tag `share_mint_authority` and the business.
pub fn share_mint_authority_address(business: &Address, program_id: &Address) -> (r: Option<
    (Address, u8),
>)
    ensures
        is_derivation(r, program_address_of(seq![share_mint_authority_tag(), business.bytes@], program_id.bytes@)),
{
    let tag: Vec<u8> = vec![115u8, 104, 97, 114, 101, 95, 109, 105, 110, 116, 95, 97, 117, 116, 104, 111, 114, 105, 116, 121];
    assert(tag@ =~= share_mint_authority_tag());
    derive1(tag, business, program_id)
}

/// Address of the share vault: tag `shares_vault` and the business.
pub fn shares_vault_address(business: &Address, program_id: &Address) -> (r: Option<(Address, u8)>)
    ensures
        is_derivation(r, program_address_of(seq![shares_vault_tag(), business.bytes@], program_id.bytes@)),
{
    let tag: Vec<u8> = vec![115u8, 104, 97, 114, 101, 115, 95, 118, 97, 117, 108, 116];
    assert(tag@ =~= shares_vault_tag());
    derive1(tag, business, program_id)
}

/// Address of an escrow offering: tag `offering`, the business and its share mint.
pub fn offering_address(business: &Address, share_mint: &Address, program_id: &Address) -> (r:
    Option<(Address, u8)>)
    ensures
        is_derivation(r, program_address_of(seq![offering_tag(), business.bytes@, share_mint.bytes@], program_id.bytes@)),
{
    let tag: Vec<u8> = vec![111u8, 102, 102, 101, 114, 105, 110, 103];
    let ghost t = tag@;
    assert(t =~= offering_tag());
    let mut seeds: Vec<Vec<u8>> = Vec::new();
    seeds.push(tag);
    seeds.push(key_seed(business));
    seeds.push(key_seed(share_mint));
    assert(seeds@.map_values(|s: Vec<u8>| s@) =~= seq![t, business.bytes@, share_mint.bytes@]);
    find_program_address(&seeds, program_id)
}

} // verus!
