use vstd::prelude::*;

verus! {

/// Why an instruction was refused.
#[derive(Clone, Copy, Debug, PartialEq, Eq, Structural)]
pub enum HookError {
    /// The record to create already exists.
    AlreadyInitialized,
    /// The source account lacks the transfer-hook extension or does not decode.
    MalformedAccount,
    /// The hook was invoked outside a transfer in progress.
    NotTransferring,
    /// The owner of the source account is not on the whitelist.
    NotWhitelisted,
    /// A whitelist mutation was signed by someone other than the authority.
    Unauthorized,
}

} // verus!
