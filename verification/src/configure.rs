//! Writing the configuration.

use crate::accounts::UpdateConfig;
use crate::address::Address;
use crate::error::ErrorCode;
use crate::events::ConfigUpdated;
use crate::state::Config;
use vstd::prelude::*;

verus! {

/// Why the caller cannot write the configuration, if it cannot: the
/// configuration has an administrator and the caller is another party.
pub open spec fn update_config_error(s: UpdateConfig) -> Option<ErrorCode> {
    if !s.config.admin.is_unset() && s.config.admin != s.admin {
        Some(ErrorCode::InvalidOwner)
    } else {
        None
    }
}

/// The configuration as the caller writes it. The caller is its
/// administrator: it was before, or the configuration had none.
pub open spec fn configured(
    s: UpdateConfig,
    protocol_fee: u8,
    fee_receiver: Address,
    is_paused: bool,
) -> Config {
    Config { admin: s.admin, protocol_fee, fee_receiver, is_paused }
}

/// Writes the protocol's fee, the fee receiver and the pause flag.
///
/// On a configuration without administrator the caller becomes the
/// administrator, whoever it is. On any other the caller has to be the
/// administrator: if it is not, `InvalidOwner` is returned and nothing changes.
pub fn update_config(
    ctx: &mut UpdateConfig,
    protocol_fee: u8,
    fee_receiver: Address,
    is_paused: bool,
) -> (res: Result<ConfigUpdated, ErrorCode>)
    ensures
        final(ctx).admin == old(ctx).admin,
        match update_config_error(*old(ctx)) {
            Some(e) => res == Err::<ConfigUpdated, ErrorCode>(e) && *final(ctx) == *old(ctx),
            None => {
                &&& final(ctx).config == configured(
                    *old(ctx),
                    protocol_fee,
                    fee_receiver,
                    is_paused,
                )
                &&& res == Ok::<ConfigUpdated, ErrorCode>(
                    ConfigUpdated {
                        admin: old(ctx).admin,
                        protocol_fee,
                        fee_receiver,
                        is_paused,
                    },
                )
            },
        },
{
    if !ctx.config.admin.is_default() && ctx.config.admin != ctx.admin {
        return Err(ErrorCode::InvalidOwner);
    }
    ctx.config = Config { admin: ctx.admin, protocol_fee, fee_receiver, is_paused };
    Ok(ConfigUpdated { admin: ctx.admin, protocol_fee, fee_receiver, is_paused })
}

} // verus!
