use vstd::prelude::*;

use spl_tlv_account_resolution::account::ExtraAccountMeta;
use spl_tlv_account_resolution::seeds::Seed;
use spl_tlv_account_resolution::state::ExtraAccountMetaList;

use crate::address::Address;
use crate::error::HookError;

verus! {

/// One extra account that a hook invocation needs: how its address is found
/// (`discriminator` 1: derived from the seeds packed in `address_config`),
/// and whether it signs or is written.
#[derive(Clone, Copy, Debug, PartialEq, Eq)]
pub struct ExtraAccountMetaEntry {
    pub discriminator: u8,
    pub address_config: [u8; 32],
    pub is_signer: bool,
    pub is_writable: bool,
}

/// Bytes of one packed entry: discriminator, address config and two flags.
pub const META_ENTRY_LEN: usize = 35;

/// The seed of the whitelist record's address: the bytes of "whitelist".
pub open spec fn whitelist_seed_bytes() -> Seq<u8> {
    seq![119u8, 104u8, 105u8, 116u8, 101u8, 108u8, 105u8, 115u8, 116u8]
}

/// The seed of the whitelist record's address.
pub fn whitelist_seed() -> (r: Vec<u8>)
    ensures
        r@ == whitelist_seed_bytes(),
{
    let r: Vec<u8> = vec![119u8, 104u8, 105u8, 116u8, 101u8, 108u8, 105u8, 115u8, 116u8];
    assert(r@ =~= whitelist_seed_bytes());
    r
}

/// A single literal seed packed into an address config: tag 1, its length,
/// its bytes, then zeros up to 32 bytes.
pub open spec fn literal_seed_config(bytes: Seq<u8>) -> Seq<u8> {
    seq![1u8, bytes.len() as u8] + bytes + Seq::new((30 - bytes.len()) as nat, |i: int| 0u8)
}

/// `m` points at the whitelist record: derived from its literal seed, read-only
/// and not a signer.
pub open spec fn is_whitelist_meta(m: ExtraAccountMetaEntry) -> bool {
    &&& m.discriminator == 1
    &&& m.address_config@ == literal_seed_config(whitelist_seed_bytes())
    &&& !m.is_signer
    &&& !m.is_writable
}

/// Bytes of a list record that holds `n` entries: 8-byte type tag, 4-byte
/// length, then the entries as a slice with its own 4-byte count; `None` when
/// the slice's size overflows.
pub open spec fn meta_list_len(n: nat) -> Option<usize> {
    let slice = META_ENTRY_LEN * n + 4;
    if slice <= usize::MAX {
        Some(if 12 + slice <= usize::MAX {
            (12 + slice) as usize
        } else {
            usize::MAX
        })
    } else {
        None
    }
}

/// Relies on spl-tlv-account-resolution's `ExtraAccountMeta::new_with_seeds`
/// with one `Seed::Literal`: discriminator 1, the seed packed as tag 1, length,
/// bytes and zero padding, and the two flags as given; an error when the
/// packed seed exceeds 32 bytes. The length bound keeps `Seed::tlv_size` from
/// overflowing its `u8`.
#[verifier::external_body]
fn meta_with_literal_seed(bytes: Vec<u8>, is_signer: bool, is_writable: bool) -> (r: Option<
    ExtraAccountMetaEntry,
>)
    requires
        bytes@.len() <= 253,
    ensures
        r is Some <==> bytes@.len() <= 30,
        r matches Some(m) ==> {
            &&& m.discriminator == 1
            &&& m.address_config@ == literal_seed_config(bytes@)
            &&& m.is_signer == is_signer
            &&& m.is_writable == is_writable
        },
{
    let meta = ExtraAccountMeta::new_with_seeds(&[Seed::Literal { bytes }], is_signer, is_writable)
        .ok()?;
    Some(
        ExtraAccountMetaEntry {
            discriminator: meta.discriminator,
            address_config: meta.address_config,
            is_signer: bool::from(meta.is_signer),
            is_writable: bool::from(meta.is_writable),
        },
    )
}

/// Relies on spl-tlv-account-resolution's `ExtraAccountMetaList::size_of`:
/// the TLV header (8 + 4 bytes) saturating-added to a checked
/// `35 * num_items + 4`.
#[verifier::external_body]
fn list_size_of(num_items: usize) -> (r: Option<usize>)
    ensures
        r == meta_list_len(num_items as nat),
{
    ExtraAccountMetaList::size_of(num_items).ok()
}

/// The accounts that set up the extra-account list of a mint: who pays, the
/// list record, and the mint.
pub struct InitializeExtraAccountMetaList {
    pub payer: Address,
    pub extra_account_meta_list: Address,
    pub mint: Address,
}

impl InitializeExtraAccountMetaList {
    /// The extra accounts every hook invocation needs: the whitelist record
    /// alone, the same for every mint.
    pub fn extra_account_metas() -> (r: Result<Vec<ExtraAccountMetaEntry>, HookError>)
        ensures
            r matches Ok(v) && v@.len() == 1 && is_whitelist_meta(v@[0]),
    {
        let seed = whitelist_seed();
        match meta_with_literal_seed(seed, false, false) {
            Some(m) => Ok(vec![m]),
            None => Err(HookError::MalformedAccount),
        }
    }

    /// Bytes the list record needs to hold the entries of `extra_account_metas`.
    pub fn extra_account_meta_list_size() -> (r: Result<usize, HookError>)
        ensures
            r == Ok::<usize, HookError>(51),
    {
        let metas = Self::extra_account_metas()?;
        match list_size_of(metas.len()) {
            Some(n) => Ok(n),
            None => Err(HookError::MalformedAccount),
        }
    }
}

/// Two entries that both point at the whitelist record are identical, so the
/// list of extra accounts is the same on every call.
pub proof fn lemma_whitelist_meta_unique(a: ExtraAccountMetaEntry, b: ExtraAccountMetaEntry)
    requires
        is_whitelist_meta(a),
        is_whitelist_meta(b),
    ensures
        a == b,
{
    assert(a.address_config =~= b.address_config);
}

} // verus!
