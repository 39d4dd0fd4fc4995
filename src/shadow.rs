use vstd::prelude::*;
use vstd::bytes::{spec_u64_to_le_bytes, u64_to_le_bytes};
use vstd::utf8::encode_utf8;
use crate::error::ZenithError;
use crate::events::ShadowAddressGenerated;
use crate::vault::{utf8_byte_len, utf8_len, Vault};

verus! {

/// The longest purpose a shadow address may be derived for, in UTF-8 bytes.
pub const MAX_PURPOSE_LEN: usize = 100;

/// The Keccak-256 digest of a byte sequence.
pub uninterp spec fn keccak256_of(data: Seq<u8>) -> Seq<u8>;

/// Relies on solana_program::keccak::hashv, which feeds the parts in order to
/// one Keccak-256 hasher: the digest is that of their concatenation.
#[verifier::external_body]
fn keccak_hashv(a: &[u8], b: &[u8], c: &[u8], d: &[u8]) -> (r: [u8; 32])
    ensures
        r@ == keccak256_of(a@ + b@ + c@ + d@),
{
    solana_program::keccak::hashv(&[a, b, c, d]).to_bytes()
}

/// The bytes hashed into a shadow address: the owner key, the UTF-8 name,
/// the UTF-8 purpose and the little-endian timestamp.
pub open spec fn shadow_preimage(
    authority: Seq<u8>,
    name: Seq<char>,
    purpose: Seq<char>,
    timestamp: i64,
) -> Seq<u8> {
    authority + encode_utf8(name) + encode_utf8(purpose) + spec_u64_to_le_bytes(
        #[verifier::truncate] (timestamp as u64),
    )
}

/// The shadow address of an owner, a vault name, a purpose and a time.
pub open spec fn shadow_address_of(
    authority: Seq<u8>,
    name: Seq<char>,
    purpose: Seq<char>,
    timestamp: i64,
) -> Seq<u8> {
    keccak256_of(shadow_preimage(authority, name, purpose, timestamp))
}

/// Derives the 32-byte shadow address of `(authority, name, purpose, timestamp)`.
pub fn derive_shadow_address(authority: &[u8; 32], name: &str, purpose: &str, timestamp: i64) -> (r:
    [u8; 32])
    ensures
        r@ == shadow_address_of(authority@, name@, purpose@, timestamp),
{
    let ts = u64_to_le_bytes(timestamp as u64);
    keccak_hashv(authority.as_slice(), name.as_bytes(), purpose.as_bytes(), ts.as_slice())
}

/// Derives a one-time address for `purpose` from the vault's identity and
/// the time `now`; the vault is not changed.
pub fn generate_shadow_address(vault: &Vault, vault_key: [u8; 32], purpose: String, now: i64) -> (r:
    Result<ShadowAddressGenerated, ZenithError>)
    ensures
        utf8_len(purpose@) > MAX_PURPOSE_LEN ==> r == Err::<ShadowAddressGenerated, ZenithError>(
            ZenithError::PurposeTooLong,
        ),
        utf8_len(purpose@) <= MAX_PURPOSE_LEN ==> (r matches Ok(ev) && {
            &&& ev.shadow_address@ == shadow_address_of(vault.authority@, vault.name@, purpose@, now)
            &&& ev.vault == vault_key
            &&& ev.authority == vault.authority
            &&& ev.purpose == purpose
            &&& ev.timestamp == now
        }),
{
    if utf8_byte_len(purpose.as_str()) > MAX_PURPOSE_LEN {
        return Err(ZenithError::PurposeTooLong);
    }
    let shadow_address = derive_shadow_address(
        &vault.authority,
        vault.name.as_str(),
        purpose.as_str(),
        now,
    );
    Ok(
        ShadowAddressGenerated {
            vault: vault_key,
            authority: vault.authority,
            shadow_address,
            purpose,
            timestamp: now,
        },
    )
}

/// Same inputs, same shadow address.
pub proof fn lemma_shadow_address_deterministic(
    authority: Seq<u8>,
    name: Seq<char>,
    purpose: Seq<char>,
    timestamp: i64,
    authority2: Seq<u8>,
    name2: Seq<char>,
    purpose2: Seq<char>,
    timestamp2: i64,
)
    requires
        authority == authority2,
        name == name2,
        purpose == purpose2,
        timestamp == timestamp2,
    ensures
        shadow_address_of(authority, name, purpose, timestamp) == shadow_address_of(
            authority2,
            name2,
            purpose2,
            timestamp2,
        ),
{
}

proof fn lemma_split_eq(s1: Seq<u8>, t1: Seq<u8>, s2: Seq<u8>, t2: Seq<u8>)
    requires
        s1 + t1 == s2 + t2,
        s1.len() == s2.len() || t1.len() == t2.len(),
    ensures
        s1 == s2,
        t1 == t2,
{
    assert(s1 =~= (s1 + t1).subrange(0, s1.len() as int));
    assert(s2 =~= (s2 + t2).subrange(0, s2.len() as int));
    assert(t1 =~= (s1 + t1).subrange(s1.len() as int, (s1 + t1).len() as int));
    assert(t2 =~= (s2 + t2).subrange(s2.len() as int, (s2 + t2).len() as int));
}

proof fn lemma_utf8_injective(a: Seq<char>, b: Seq<char>)
    requires
        encode_utf8(a) == encode_utf8(b),
    ensures
        a == b,
{
    vstd::utf8::encode_utf8_decode_utf8(a);
    vstd::utf8::encode_utf8_decode_utf8(b);
}

/// The hashed bytes of a shadow address differ whenever exactly one of the
/// inputs differs (owner keys being 32 bytes): a change of any one input
/// reaches the hash, so two such addresses coincide only on a collision of
/// Keccak-256.
pub proof fn lemma_shadow_preimage_separates(
    authority: Seq<u8>,
    name: Seq<char>,
    purpose: Seq<char>,
    timestamp: i64,
    authority2: Seq<u8>,
    name2: Seq<char>,
    purpose2: Seq<char>,
    timestamp2: i64,
)
    requires
        authority.len() == 32,
        authority2.len() == 32,
        (authority != authority2 && name == name2 && purpose == purpose2 && timestamp
            == timestamp2) || (authority == authority2 && name != name2 && purpose == purpose2
            && timestamp == timestamp2) || (authority == authority2 && name == name2 && purpose
            != purpose2 && timestamp == timestamp2) || (authority == authority2 && name == name2
            && purpose == purpose2 && timestamp != timestamp2),
    ensures
        shadow_preimage(authority, name, purpose, timestamp) != shadow_preimage(
            authority2,
            name2,
            purpose2,
            timestamp2,
        ),
{
    vstd::bytes::lemma_auto_spec_u64_to_from_le_bytes();
    let n1 = encode_utf8(name);
    let n2 = encode_utf8(name2);
    let p1 = encode_utf8(purpose);
    let p2 = encode_utf8(purpose2);
    let u1 = #[verifier::truncate] (timestamp as u64);
    let u2 = #[verifier::truncate] (timestamp2 as u64);
    let d1 = spec_u64_to_le_bytes(u1);
    let d2 = spec_u64_to_le_bytes(u2);
    if shadow_preimage(authority, name, purpose, timestamp) == shadow_preimage(
        authority2,
        name2,
        purpose2,
        timestamp2,
    ) {
        assert(d1.len() == 8 && d2.len() == 8);
        lemma_split_eq(authority + n1 + p1, d1, authority2 + n2 + p2, d2);
        assert(u1 == u2);
        assert(#[verifier::truncate] (timestamp as u64) == #[verifier::truncate] (timestamp2 as u64) ==> timestamp == timestamp2) by (bit_vector);
        if timestamp == timestamp2 {
            if purpose == purpose2 {
                lemma_split_eq(authority + n1, p1, authority2 + n2, p2);
                lemma_split_eq(authority, n1, authority2, n2);
                if name != name2 {
                    lemma_utf8_injective(name, name2);
                }
            } else {
                lemma_split_eq(authority + n1, p1, authority2 + n2, p2);
                lemma_utf8_injective(purpose, purpose2);
            }
        }
    }
}

} // verus!
