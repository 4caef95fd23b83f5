//! Transitions reserved to the record's admin.
use vstd::prelude::*;
use crate::config::Config;
use crate::types::{Address, ErrorCode, Finalized, LedgerAction, Paused, WindowUpdated};

verus! {

/// What an admin operation reads of the ledger: the signer and the new asset
/// that selects the record.
#[derive(Clone, Copy, Debug)]
pub struct AdminOnly {
    pub admin: Address,
    pub new_mint: Address,
}

/// What finalization reads of the ledger: the signer and the new asset.
#[derive(Clone, Copy, Debug)]
pub struct Finalize {
    pub admin: Address,
    pub new_mint: Address,
}

/// The first check that refuses an admin operation, if any.
pub open spec fn admin_error(c: Config, admin: Address, new_mint: Address) -> Option<ErrorCode> {
    if admin@ != c.admin@ {
        Some(ErrorCode::NotAdmin)
    } else if new_mint@ != c.new_mint@ {
        Some(ErrorCode::WrongMint)
    } else {
        None
    }
}

/// The first check that refuses finalization at time `now`, if any.
pub open spec fn finalize_error(c: Config, a: Finalize, now: i64) -> Option<ErrorCode> {
    if admin_error(c, a.admin, a.new_mint) is Some {
        admin_error(c, a.admin, a.new_mint)
    } else if c.finalized {
        Some(ErrorCode::AlreadyFinalized)
    } else if now <= c.end_ts {
        Some(ErrorCode::TooEarly)
    } else {
        None
    }
}

fn check_admin(cfg: &Config, admin: &Address, new_mint: &Address) -> (r: Option<ErrorCode>)
    ensures
        r == admin_error(*cfg, *admin, *new_mint),
{
    if !admin.same(&cfg.admin) {
        Some(ErrorCode::NotAdmin)
    } else if !new_mint.same(&cfg.new_mint) {
        Some(ErrorCode::WrongMint)
    } else {
        None
    }
}

/// Sets the pause switch; only the admin may.
pub fn set_pause(cfg: &mut Config, a: &AdminOnly, paused: bool) -> (r: Result<Paused, ErrorCode>)
    ensures
        old(cfg).wf() ==> final(cfg).wf(),
        match admin_error(*old(cfg), a.admin, a.new_mint) {
            Some(e) => r == Err::<Paused, ErrorCode>(e) && *final(cfg) == *old(cfg),
            None => {
                &&& r == Ok::<Paused, ErrorCode>(Paused { paused })
                &&& *final(cfg) == (Config { paused, ..*old(cfg) })
            },
        },
{
    if let Some(e) = check_admin(cfg, &a.admin, &a.new_mint) {
        return Err(e);
    }
    cfg.paused = paused;
    Ok(Paused { paused })
}

/// Replaces the redemption window; only the admin may. The bounds are not
/// ordered: a start after the end closes redemption for good.
pub fn update_window(cfg: &mut Config, a: &AdminOnly, start_ts: i64, end_ts: i64) -> (r: Result<
    WindowUpdated,
    ErrorCode,
>)
    ensures
        old(cfg).wf() ==> final(cfg).wf(),
        match admin_error(*old(cfg), a.admin, a.new_mint) {
            Some(e) => r == Err::<WindowUpdated, ErrorCode>(e) && *final(cfg) == *old(cfg),
            None => {
                &&& r == Ok::<WindowUpdated, ErrorCode>(WindowUpdated { start_ts, end_ts })
                &&& *final(cfg) == (Config { start_ts, end_ts, ..*old(cfg) })
            },
        },
{
    if let Some(e) = check_admin(cfg, &a.admin, &a.new_mint) {
        return Err(e);
    }
    cfg.start_ts = start_ts;
    cfg.end_ts = end_ts;
    Ok(WindowUpdated { start_ts, end_ts })
}

/// Latches the record as finalized once the window has closed (`now` after
/// `end_ts`), and asks the ledger to revoke minting of the new asset for good.
pub fn finalize(cfg: &mut Config, a: &Finalize, now: i64) -> (r: Result<
    (LedgerAction, Finalized),
    ErrorCode,
>)
    ensures
        old(cfg).wf() ==> final(cfg).wf(),
        match finalize_error(*old(cfg), *a, now) {
            Some(e) => r == Err::<(LedgerAction, Finalized), ErrorCode>(e) && *final(cfg) == *old(
                cfg,
            ),
            None => {
                &&& r == Ok::<(LedgerAction, Finalized), ErrorCode>(
                    (LedgerAction::RevokeMintAuthority { mint: old(cfg).new_mint }, Finalized {  }),
                )
                &&& *final(cfg) == (Config { finalized: true, ..*old(cfg) })
            },
        },
{
    if let Some(e) = check_admin(cfg, &a.admin, &a.new_mint) {
        return Err(e);
    }
    if cfg.finalized {
        return Err(ErrorCode::AlreadyFinalized);
    }
    if now <= cfg.end_ts {
        return Err(ErrorCode::TooEarly);
    }
    cfg.finalized = true;
    Ok((LedgerAction::RevokeMintAuthority { mint: cfg.new_mint }, Finalized {  }))
}

} // verus!
