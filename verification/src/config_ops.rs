//! Lifecycle of the singleton registry configuration: creation, transfer of
//! administratorship, and fee changes.

use vstd::prelude::*;
use crate::contexts::{InitializeConfig, UpdateConfig};
use crate::errors::ErrorCode;
use crate::identity::Identity;
use crate::state::Config;

verus! {

/// The outcome of `initialize_config`: the configuration slot it leaves
/// behind and the reported result.
pub open spec fn spec_initialize_config(c: InitializeConfig, admin: Identity, fee: u64) -> (InitializeConfig, Result<(), ErrorCode>) {
    if c.admin_config is Some {
        (c, Err(ErrorCode::AlreadyExists))
    } else {
        (InitializeConfig { admin_config: Some((Config { admin, fee })), ..c }, Ok(()))
    }
}

/// Creates the registry configuration with the given administrator and fee.
/// Fails with `AlreadyExists`, changing nothing, when a configuration
/// already lives at the target address.
pub fn initialize_config(ctx: &mut InitializeConfig, admin: Identity, fee: u64) -> (r: Result<(), ErrorCode>)
    ensures
        (*final(ctx), r) == spec_initialize_config(*old(ctx), admin, fee),
        old(ctx).admin_config is Some ==> r == Err::<(), ErrorCode>(ErrorCode::AlreadyExists) && *final(ctx) == *old(ctx),
        old(ctx).admin_config is None ==> r == Ok::<(), ErrorCode>(()) && final(ctx).admin_config == Some((Config { admin, fee })) && final(ctx).funder == old(ctx).funder,
{
    if ctx.admin_config.is_some() {
        return Err(ErrorCode::AlreadyExists);
    }
    ctx.admin_config = Some(Config { admin, fee });
    Ok(())
}

/// Whether the caller of a configuration mutation is its administrator.
pub open spec fn config_authorized(c: UpdateConfig) -> bool {
    c.admin == c.admin_config.admin
}

/// The outcome of `update_config`: the state it leaves behind and the
/// reported result.
pub open spec fn spec_update_config(c: UpdateConfig, new_admin: Identity) -> (UpdateConfig, Result<(), ErrorCode>) {
    if !config_authorized(c) {
        (c, Err(ErrorCode::Unauthorized))
    } else {
        (UpdateConfig { admin_config: Config { admin: new_admin, ..c.admin_config }, ..c }, Ok(()))
    }
}

/// Hands administratorship of the configuration to `new_admin`. Only the
/// current administrator may call this; any other caller gets
/// `Unauthorized` and nothing changes. Handing it to the current
/// administrator is a no-op that still succeeds.
pub fn update_config(ctx: &mut UpdateConfig, new_admin: Identity) -> (r: Result<(), ErrorCode>)
    ensures
        (*final(ctx), r) == spec_update_config(*old(ctx), new_admin),
        !config_authorized(*old(ctx)) ==> r == Err::<(), ErrorCode>(ErrorCode::Unauthorized) && *final(ctx) == *old(ctx),
        config_authorized(*old(ctx)) ==> r == Ok::<(), ErrorCode>(())
            && final(ctx).admin_config.admin == new_admin
            && final(ctx).admin_config.fee == old(ctx).admin_config.fee
            && final(ctx).admin == old(ctx).admin,
{
    if !(ctx.admin == ctx.admin_config.admin) {
        return Err(ErrorCode::Unauthorized);
    }
    ctx.admin_config.admin = new_admin;
    Ok(())
}

/// The outcome of `set_fee`: the state it leaves behind and the reported
/// result.
pub open spec fn spec_set_fee(c: UpdateConfig, new_fee: u64) -> (UpdateConfig, Result<(), ErrorCode>) {
    if !config_authorized(c) {
        (c, Err(ErrorCode::Unauthorized))
    } else {
        (UpdateConfig { admin_config: Config { fee: new_fee, ..c.admin_config }, ..c }, Ok(()))
    }
}

/// Sets the fee charged on future decisions. Only the administrator may
/// call this; any other caller gets `Unauthorized` and nothing changes.
/// Records already created keep their snapshotted `fee` field, but the
/// decision operation charges the configuration's live fee, so the new fee
/// takes effect for every decision after this call.
pub fn set_fee(ctx: &mut UpdateConfig, new_fee: u64) -> (r: Result<(), ErrorCode>)
    ensures
        (*final(ctx), r) == spec_set_fee(*old(ctx), new_fee),
        !config_authorized(*old(ctx)) ==> r == Err::<(), ErrorCode>(ErrorCode::Unauthorized) && *final(ctx) == *old(ctx),
        config_authorized(*old(ctx)) ==> r == Ok::<(), ErrorCode>(())
            && final(ctx).admin_config.fee == new_fee
            && final(ctx).admin_config.admin == old(ctx).admin_config.admin
            && final(ctx).admin == old(ctx).admin,
{
    if !(ctx.admin == ctx.admin_config.admin) {
        return Err(ErrorCode::Unauthorized);
    }
    ctx.admin_config.fee = new_fee;
    Ok(())
}

} // verus!
