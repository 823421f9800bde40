use vstd::prelude::*;

use anchor_spl::token_2022::spl_token_2022::extension::transfer_hook::TransferHookAccount;
use anchor_spl::token_2022::spl_token_2022::extension::BaseStateWithExtensions;
use anchor_spl::token_2022::spl_token_2022::extension::PodStateWithExtensions;
use anchor_spl::token_2022::spl_token_2022::pod::PodAccount;

use crate::address::Address;
use crate::error::HookError;
use crate::state::Whitelist;

verus! {

/// Bytes of the base token-account state that precedes its extensions.
pub const TOKEN_ACCOUNT_LEN: usize = 165;

/// The transferring flag of the transfer-hook extension of the token account
/// whose raw bytes are `data`, or `None` when those bytes hold no initialized
/// account with that extension.
pub uninterp spec fn transferring_flag(data: Seq<u8>) -> Option<bool>;

/// Relies on spl-token-2022's `PodStateWithExtensions::<PodAccount>::unpack`
/// and `get_extension::<TransferHookAccount>`: they decode the account's bytes
/// alone, and refuse any input shorter than the base account state.
#[verifier::external_body]
fn read_transferring_flag(data: &[u8]) -> (r: Option<bool>)
    ensures
        r == transferring_flag(data@),
        data@.len() < TOKEN_ACCOUNT_LEN ==> r is None,
{
    let state = PodStateWithExtensions::<PodAccount>::unpack(data).ok()?;
    let extension = state.get_extension::<TransferHookAccount>().ok()?;
    Some(bool::from(extension.transferring))
}

/// What the mid-transfer check gives for a decoded flag.
pub open spec fn transferring_outcome(flag: Option<bool>) -> Result<(), HookError> {
    match flag {
        None => Err(HookError::MalformedAccount),
        Some(false) => Err(HookError::NotTransferring),
        Some(true) => Ok(()),
    }
}

/// The authorization decision: the mid-transfer check first, then membership.
pub open spec fn hook_outcome(flag: Option<bool>, owner: Address, listed: Seq<Address>) -> Result<
    (),
    HookError,
> {
    match transferring_outcome(flag) {
        Err(e) => Err(e),
        Ok(()) => if listed.contains(owner) {
            Ok(())
        } else {
            Err(HookError::NotWhitelisted)
        },
    }
}

/// Decides a transfer from the decoded transferring flag of the source account:
/// it must be mid-transfer, and `owner` must be listed.
pub fn authorize(flag: Option<bool>, owner: &Address, whitelist: &Whitelist) -> (r: Result<
    (),
    HookError,
>)
    ensures
        r == hook_outcome(flag, *owner, whitelist.address@),
{
    match flag {
        None => Err(HookError::MalformedAccount),
        Some(false) => Err(HookError::NotTransferring),
        Some(true) => {
            if whitelist.contains(owner) {
                Ok(())
            } else {
                Err(HookError::NotWhitelisted)
            }
        },
    }
}

/// An owner who is not listed is refused during a transfer.
pub proof fn lemma_unlisted_owner_refused(owner: Address, listed: Seq<Address>)
    requires
        !listed.contains(owner),
    ensures
        hook_outcome(Some(true), owner, listed) == Err::<(), HookError>(HookError::NotWhitelisted),
{
}

/// A listed owner passes during a transfer.
pub proof fn lemma_listed_owner_passes(owner: Address, listed: Seq<Address>)
    requires
        listed.contains(owner),
    ensures
        hook_outcome(Some(true), owner, listed) == Ok::<(), HookError>(()),
{
}

/// Outside a transfer every owner is refused as not transferring, listed or
/// not, so the answer tells nothing of membership.
pub proof fn lemma_not_transferring_hides_membership(owner: Address, listed: Seq<Address>)
    ensures
        hook_outcome(Some(false), owner, listed) == Err::<(), HookError>(HookError::NotTransferring),
        hook_outcome(Some(false), owner, listed) != Err::<(), HookError>(HookError::NotWhitelisted),
{
}

/// The accounts the transfer engine hands to the hook: the raw bytes of the
/// source token account, the mint, the destination account, the source's
/// owner and the whitelist record.
pub struct TransferHook {
    pub source_token: Vec<u8>,
    pub mint: Address,
    pub destination_token: Address,
    pub owner: Address,
    pub whitelist: Whitelist,
}

impl TransferHook {
    /// Authorizes a transfer of `_amount`; the amount is not inspected.
    pub fn transfer_hook(&mut self, _amount: u64) -> (r: Result<(), HookError>)
        ensures
            r == hook_outcome(
                transferring_flag(old(self).source_token@),
                old(self).owner,
                old(self).whitelist.address@,
            ),
            *final(self) == *old(self),
    {
        match self.check_is_transferring() {
            Err(e) => Err(e),
            Ok(()) => authorize(Some(true), &self.owner, &self.whitelist),
        }
    }

    /// Succeeds only when the source account is in the middle of a transfer.
    fn check_is_transferring(&mut self) -> (r: Result<(), HookError>)
        ensures
            r == transferring_outcome(transferring_flag(old(self).source_token@)),
            *final(self) == *old(self),
    {
        let flag = read_transferring_flag(self.source_token.as_slice());
        match flag {
            None => Err(HookError::MalformedAccount),
            Some(false) => Err(HookError::NotTransferring),
            Some(true) => Ok(()),
        }
    }
}

} // verus!
