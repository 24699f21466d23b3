//! Writing the market-wide configuration for the first time.

use crate::address::Address;
use crate::errors::ContractError;
use crate::states::global::{Global, GlobalSettingsInput};
use vstd::prelude::*;

verus! {

/// The accounts of the first write of the configuration.
#[derive(Clone, Copy, Debug, PartialEq, Eq)]
pub struct Initialize {
    /// Who writes the configuration, and becomes its authority.
    pub authority: Address,
    /// The configuration to write.
    pub global: Global,
}

impl Initialize {
    /// The configuration after its first write: the settings of `params`,
    /// both authorities set to `self.authority`, and the flag raised.
    pub open spec fn initialized_global(self, params: GlobalSettingsInput) -> Global {
        Global {
            initialized: true,
            global_authority: self.authority,
            migration_authority: self.authority,
            ..self.global.with_settings(params)
        }
    }
}

/// Writes every field of the configuration and raises its flag. It always
/// succeeds; that it runs only once is for the keeper of the account to
/// enforce.
pub fn initialize(ctx: &mut Initialize, params: GlobalSettingsInput) -> (done: Result<
    (),
    ContractError,
>)
    ensures
        done is Ok,
        final(ctx).global == old(ctx).initialized_global(params),
        final(ctx).global.initialized,
        final(ctx).authority == old(ctx).authority,
{
    ctx.global.update_settings(params);
    ctx.global.migration_authority = ctx.authority;
    ctx.global.global_authority = ctx.authority;
    ctx.global.initialized = true;
    Ok(())
}

} // verus!
