use vstd::prelude::*;

use crate::address::Address;
use crate::error::HookError;
use crate::state::Whitelist;

verus! {

/// The bump found when the whitelist record's address was derived.
#[derive(Clone, Copy, Debug, PartialEq, Eq, Structural)]
pub struct InitializeWhitelistBumps {
    pub whitelist: u8,
}

/// The accounts that create the whitelist record: the admin who pays, and the
/// record's slot, empty until it is created.
pub struct InitializeWhitelist {
    pub admin: Address,
    pub whitelist: Option<Whitelist>,
}

impl InitializeWhitelist {
    /// Creates the whitelist record with no owners and the derived bump;
    /// refuses when the record already exists.
    pub fn initialize_whitelist(&mut self, bumps: InitializeWhitelistBumps) -> (r: Result<
        (),
        HookError,
    >)
        ensures
            old(self).whitelist is Some ==> r == Err::<(), HookError>(HookError::AlreadyInitialized)
                && *final(self) == *old(self),
            old(self).whitelist is None ==> {
                &&& r is Ok
                &&& final(self).admin == old(self).admin
                &&& final(self).whitelist matches Some(w) && w.address@ == Seq::<Address>::empty()
                    && w.bump == bumps.whitelist && w.wf()
            },
    {
        if self.whitelist.is_some() {
            return Err(HookError::AlreadyInitialized);
        }
        self.whitelist = Some(Whitelist { address: Vec::new(), bump: bumps.whitelist });
        Ok(())
    }
}

} // verus!
