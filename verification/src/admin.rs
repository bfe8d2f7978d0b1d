//! Setting the protocol up, pausing it, and changing its parameters.

use vstd::prelude::*;
use crate::contexts::{AdminAction, Initialize};
use crate::errors::ErrorCode;
use crate::events::{ConfigUpdated, ProtocolInitialized, ProtocolPausedChanged};
use crate::fees::{is_valid_bps, valid_bps};
use crate::identity::Identity;
use crate::state::ProtocolConfig;

verus! {

/// The configuration of a protocol that has just been set up: the given
/// parties and rates, every counter at zero, not paused.
pub open spec fn initial_config(
    ctx: Initialize,
    admin_fee_split_bps: u16,
    default_interest_rate_bps: u16,
    default_admin_fee_bps: u16,
) -> ProtocolConfig {
    ProtocolConfig {
        admin: ctx.admin,
        treasury: ctx.treasury,
        deployer: ctx.deployer,
        admin_fee_split_bps,
        default_interest_rate_bps,
        default_admin_fee_bps,
        total_deposits: 0,
        total_loans_outstanding: 0,
        total_yield_distributed: 0,
        loan_counter: 0,
        is_paused: false,
    }
}

/// Setting up as a whole: the context afterwards, and the result.
pub open spec fn initialize_spec(
    ctx: Initialize,
    admin_fee_split_bps: u16,
    default_interest_rate_bps: u16,
    default_admin_fee_bps: u16,
) -> (Initialize, Result<ProtocolInitialized, ErrorCode>) {
    if !valid_bps(admin_fee_split_bps) || !valid_bps(default_interest_rate_bps) || !valid_bps(
        default_admin_fee_bps,
    ) {
        (ctx, Err(ErrorCode::InvalidParameter))
    } else {
        (
            Initialize {
                protocol_config: initial_config(
                    ctx,
                    admin_fee_split_bps,
                    default_interest_rate_bps,
                    default_admin_fee_bps,
                ),
                ..ctx
            },
            Ok(ProtocolInitialized { admin: ctx.admin, treasury: ctx.treasury }),
        )
    }
}

/// Sets the protocol up: the caller becomes the admin, the counters start
/// at zero and the protocol is not paused. Each rate must be at most the
/// whole.
pub fn initialize(
    ctx: &mut Initialize,
    admin_fee_split_bps: u16,
    default_interest_rate_bps: u16,
    default_admin_fee_bps: u16,
) -> (result: Result<ProtocolInitialized, ErrorCode>)
    ensures
        *final(ctx) == initialize_spec(
            *old(ctx),
            admin_fee_split_bps,
            default_interest_rate_bps,
            default_admin_fee_bps,
        ).0,
        result == initialize_spec(
            *old(ctx),
            admin_fee_split_bps,
            default_interest_rate_bps,
            default_admin_fee_bps,
        ).1,
        result is Err ==> *final(ctx) == *old(ctx),
        result is Ok <==> valid_bps(admin_fee_split_bps) && valid_bps(default_interest_rate_bps)
            && valid_bps(default_admin_fee_bps),
        result is Ok ==> final(ctx).protocol_config.wf(),
{
    if !is_valid_bps(admin_fee_split_bps) || !is_valid_bps(default_interest_rate_bps)
        || !is_valid_bps(default_admin_fee_bps) {
        return Err(ErrorCode::InvalidParameter);
    }
    ctx.protocol_config = ProtocolConfig {
        admin: ctx.admin,
        treasury: ctx.treasury,
        deployer: ctx.deployer,
        admin_fee_split_bps,
        default_interest_rate_bps,
        default_admin_fee_bps,
        total_deposits: 0,
        total_loans_outstanding: 0,
        total_yield_distributed: 0,
        loan_counter: 0,
        is_paused: false,
    };
    Ok(ProtocolInitialized { admin: ctx.admin, treasury: ctx.treasury })
}

/// Pausing or resuming as a whole: the context afterwards, and the result.
pub open spec fn set_paused_spec(
    ctx: AdminAction,
    is_paused: bool,
) -> (AdminAction, Result<ProtocolPausedChanged, ErrorCode>) {
    if ctx.admin != ctx.protocol_config.admin {
        (ctx, Err(ErrorCode::Unauthorized))
    } else {
        (
            AdminAction {
                protocol_config: ProtocolConfig { is_paused, ..ctx.protocol_config },
                ..ctx
            },
            Ok(ProtocolPausedChanged { is_paused }),
        )
    }
}

/// Pauses or resumes the protocol. Only the admin may do so.
pub fn set_paused(
    ctx: &mut AdminAction,
    is_paused: bool,
) -> (result: Result<ProtocolPausedChanged, ErrorCode>)
    ensures
        *final(ctx) == set_paused_spec(*old(ctx), is_paused).0,
        result == set_paused_spec(*old(ctx), is_paused).1,
        result is Err ==> *final(ctx) == *old(ctx),
        old(ctx).protocol_config.solvent() ==> final(ctx).protocol_config.solvent(),
        final(ctx).protocol_config.total_loans_outstanding
            == old(ctx).protocol_config.total_loans_outstanding,
        old(ctx).wf() ==> final(ctx).wf(),
{
    if ctx.admin != ctx.protocol_config.admin {
        return Err(ErrorCode::Unauthorized);
    }
    ctx.protocol_config.is_paused = is_paused;
    Ok(ProtocolPausedChanged { is_paused })
}

/// Whether a rate that may be left out is, where it is given, at most the
/// whole.
pub open spec fn valid_override(bps: Option<u16>) -> bool {
    match bps {
        Some(value) => valid_bps(value),
        None => true,
    }
}

/// The given rate, or the current one where none is given.
pub open spec fn bps_or(given: Option<u16>, current: u16) -> u16 {
    match given {
        Some(value) => value,
        None => current,
    }
}

/// The given identity, or the current one where none is given.
pub open spec fn identity_or(given: Option<Identity>, current: Identity) -> Identity {
    match given {
        Some(value) => value,
        None => current,
    }
}

/// Why a change of parameters is turned away, if it is.
pub open spec fn update_config_rejection(
    ctx: AdminAction,
    admin_fee_split_bps: Option<u16>,
    default_interest_rate_bps: Option<u16>,
    default_admin_fee_bps: Option<u16>,
) -> Option<ErrorCode> {
    if ctx.admin != ctx.protocol_config.admin {
        Some(ErrorCode::Unauthorized)
    } else if !valid_override(admin_fee_split_bps) || !valid_override(default_interest_rate_bps)
        || !valid_override(default_admin_fee_bps) {
        Some(ErrorCode::InvalidParameter)
    } else {
        None
    }
}

/// The configuration after a change of parameters: each one given replaces
/// the current one, the others stay.
pub open spec fn updated_config(
    config: ProtocolConfig,
    admin_fee_split_bps: Option<u16>,
    default_interest_rate_bps: Option<u16>,
    default_admin_fee_bps: Option<u16>,
    deployer: Option<Identity>,
    treasury: Option<Identity>,
) -> ProtocolConfig {
    ProtocolConfig {
        admin_fee_split_bps: bps_or(admin_fee_split_bps, config.admin_fee_split_bps),
        default_interest_rate_bps: bps_or(
            default_interest_rate_bps,
            config.default_interest_rate_bps,
        ),
        default_admin_fee_bps: bps_or(default_admin_fee_bps, config.default_admin_fee_bps),
        deployer: identity_or(deployer, config.deployer),
        treasury: identity_or(treasury, config.treasury),
        ..config
    }
}

/// A change of parameters as a whole: the context afterwards, and the
/// result.
pub open spec fn update_config_spec(
    ctx: AdminAction,
    admin_fee_split_bps: Option<u16>,
    default_interest_rate_bps: Option<u16>,
    default_admin_fee_bps: Option<u16>,
    deployer: Option<Identity>,
    treasury: Option<Identity>,
) -> (AdminAction, Result<ConfigUpdated, ErrorCode>) {
    match update_config_rejection(
        ctx,
        admin_fee_split_bps,
        default_interest_rate_bps,
        default_admin_fee_bps,
    ) {
        Some(e) => (ctx, Err(e)),
        None => {
            let config = updated_config(
                ctx.protocol_config,
                admin_fee_split_bps,
                default_interest_rate_bps,
                default_admin_fee_bps,
                deployer,
                treasury,
            );
            (
                AdminAction { protocol_config: config, ..ctx },
                Ok(
                    ConfigUpdated {
                        admin_fee_split_bps: config.admin_fee_split_bps,
                        default_interest_rate_bps: config.default_interest_rate_bps,
                        default_admin_fee_bps: config.default_admin_fee_bps,
                    },
                ),
            )
        },
    }
}

/// Changes the protocol's parameters. Only the admin may do so. Each
/// parameter given replaces the current one; the others stay. If any rate
/// given is more than the whole, nothing changes.
pub fn update_config(
    ctx: &mut AdminAction,
    admin_fee_split_bps: Option<u16>,
    default_interest_rate_bps: Option<u16>,
    default_admin_fee_bps: Option<u16>,
    deployer: Option<Identity>,
    treasury: Option<Identity>,
) -> (result: Result<ConfigUpdated, ErrorCode>)
    ensures
        *final(ctx) == update_config_spec(
            *old(ctx),
            admin_fee_split_bps,
            default_interest_rate_bps,
            default_admin_fee_bps,
            deployer,
            treasury,
        ).0,
        result == update_config_spec(
            *old(ctx),
            admin_fee_split_bps,
            default_interest_rate_bps,
            default_admin_fee_bps,
            deployer,
            treasury,
        ).1,
        result is Err ==> *final(ctx) == *old(ctx),
        old(ctx).protocol_config.solvent() ==> final(ctx).protocol_config.solvent(),
        final(ctx).protocol_config.total_loans_outstanding
            == old(ctx).protocol_config.total_loans_outstanding,
        !valid_override(admin_fee_split_bps) || !valid_override(default_interest_rate_bps)
            || !valid_override(default_admin_fee_bps) ==> result is Err,
        old(ctx).wf() ==> final(ctx).wf(),
{
    if ctx.admin != ctx.protocol_config.admin {
        return Err(ErrorCode::Unauthorized);
    }
    if let Some(split) = admin_fee_split_bps {
        if !is_valid_bps(split) {
            return Err(ErrorCode::InvalidParameter);
        }
    }
    if let Some(rate) = default_interest_rate_bps {
        if !is_valid_bps(rate) {
            return Err(ErrorCode::InvalidParameter);
        }
    }
    if let Some(fee) = default_admin_fee_bps {
        if !is_valid_bps(fee) {
            return Err(ErrorCode::InvalidParameter);
        }
    }
    if let Some(split) = admin_fee_split_bps {
        ctx.protocol_config.admin_fee_split_bps = split;
    }
    if let Some(rate) = default_interest_rate_bps {
        ctx.protocol_config.default_interest_rate_bps = rate;
    }
    if let Some(fee) = default_admin_fee_bps {
        ctx.protocol_config.default_admin_fee_bps = fee;
    }
    if let Some(new_deployer) = deployer {
        ctx.protocol_config.deployer = new_deployer;
    }
    if let Some(new_treasury) = treasury {
        ctx.protocol_config.treasury = new_treasury;
    }
    Ok(
        ConfigUpdated {
            admin_fee_split_bps: ctx.protocol_config.admin_fee_split_bps,
            default_interest_rate_bps: ctx.protocol_config.default_interest_rate_bps,
            default_admin_fee_bps: ctx.protocol_config.default_admin_fee_bps,
        },
    )
}

} // verus!
