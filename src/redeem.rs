//! The conversion engine: burn old units, mint new units under the cap.
use vstd::prelude::*;
use crate::config::Config;
use crate::convert::{convert_amount, converted};
use crate::types::{Address, ErrorCode, LedgerAction, Redeemed, TokenAccountInfo};

verus! {

/// What a redemption reads of the ledger: the caller, both assets and the
/// caller's balance accounts on each side.
#[derive(Clone, Copy, Debug)]
pub struct Redeem {
    pub user: Address,
    pub old_mint: Address,
    pub new_mint: Address,
    pub user_old_ata: TokenAccountInfo,
    pub user_new_ata: TokenAccountInfo,
}

/// Whether the assets named by the accounts are those of the record.
pub open spec fn assets_match(c: Config, a: Redeem) -> bool {
    &&& a.old_mint@ == c.old_mint@
    &&& a.new_mint@ == c.new_mint@
    &&& a.user_old_ata.mint@ == c.old_mint@
    &&& a.user_new_ata.mint@ == c.new_mint@
}

/// Whether both balance accounts belong to the caller.
pub open spec fn owned_by_user(a: Redeem) -> bool {
    a.user_old_ata.owner@ == a.user@ && a.user_new_ata.owner@ == a.user@
}

/// The amount a redemption mints, or the first check that refuses it:
/// pause, window, finalization, asset binding, ownership, overflow, the
/// caller's minimum, dust, then remaining capacity.
pub open spec fn redeem_outcome(
    c: Config,
    a: Redeem,
    now: i64,
    amount_old: u64,
    min_new_out: u64,
) -> Result<u64, ErrorCode> {
    if c.paused {
        Err(ErrorCode::Paused)
    } else if now < c.start_ts || now > c.end_ts {
        Err(ErrorCode::OutsideWindow)
    } else if c.finalized {
        Err(ErrorCode::AlreadyFinalized)
    } else if !assets_match(c, a) {
        Err(ErrorCode::WrongMint)
    } else if !owned_by_user(a) {
        Err(ErrorCode::WrongOwner)
    } else {
        match converted(amount_old, c.ratio_num, c.ratio_den, c.old_decimals, c.new_decimals) {
            None => Err(ErrorCode::MathOverflow),
            Some(n) => {
                if n < min_new_out {
                    Err(ErrorCode::Slippage)
                } else if n == 0 {
                    Err(ErrorCode::DustTooSmall)
                } else if c.migration_minted > c.migration_cap || n > c.migration_cap
                    - c.migration_minted {
                    Err(ErrorCode::CapExceeded)
                } else {
                    Ok(n)
                }
            },
        }
    }
}

/// The record after `n` more units were minted by redemption.
pub open spec fn with_minted(c: Config, n: u64) -> Config {
    Config { migration_minted: (c.migration_minted + n) as u64, ..c }
}

/// The burn of the caller's old units and the mint of `n` new units to them.
pub open spec fn redeem_actions(c: Config, a: Redeem, amount_old: u64, n: u64) -> Seq<LedgerAction> {
    seq![
        LedgerAction::Burn {
            mint: c.old_mint,
            from: a.user_old_ata.key,
            authority: a.user,
            amount: amount_old,
        },
        LedgerAction::MintTo { mint: c.new_mint, to: a.user_new_ata.key, amount: n },
    ]
}

/// Exchanges `amount_old` old units of the caller for new units at the
/// record's ratio, at time `now`. On success the counter grows by exactly the
/// minted amount, which is positive, at least `min_new_out` and within the
/// remaining capacity; the actions burn exactly `amount_old` and mint exactly
/// that amount. On failure the record is unchanged and nothing is burned or
/// minted.
pub fn redeem(cfg: &mut Config, a: &Redeem, now: i64, amount_old: u64, min_new_out: u64) -> (r:
    Result<(Vec<LedgerAction>, Redeemed), ErrorCode>)
    ensures
        old(cfg).wf() ==> final(cfg).wf(),
        match redeem_outcome(*old(cfg), *a, now, amount_old, min_new_out) {
            Ok(n) => {
                &&& r is Ok
                &&& r->Ok_0.0@ == redeem_actions(*old(cfg), *a, amount_old, n)
                &&& r->Ok_0.1 == (Redeemed { user: a.user, burned_old: amount_old, minted_new: n })
                &&& *final(cfg) == with_minted(*old(cfg), n)
            },
            Err(e) => r is Err && r->Err_0 == e && *final(cfg) == *old(cfg),
        },
{
    if cfg.paused {
        return Err(ErrorCode::Paused);
    }
    if now < cfg.start_ts || now > cfg.end_ts {
        return Err(ErrorCode::OutsideWindow);
    }
    if cfg.finalized {
        return Err(ErrorCode::AlreadyFinalized);
    }
    if !a.old_mint.same(&cfg.old_mint) || !a.new_mint.same(&cfg.new_mint)
        || !a.user_old_ata.mint.same(&cfg.old_mint) || !a.user_new_ata.mint.same(&cfg.new_mint) {
        return Err(ErrorCode::WrongMint);
    }
    if !a.user_old_ata.owner.same(&a.user) || !a.user_new_ata.owner.same(&a.user) {
        return Err(ErrorCode::WrongOwner);
    }
    let n = match convert_amount(
        amount_old,
        cfg.ratio_num,
        cfg.ratio_den,
        cfg.old_decimals,
        cfg.new_decimals,
    ) {
        Some(n) => n,
        None => return Err(ErrorCode::MathOverflow),
    };
    if n < min_new_out {
        return Err(ErrorCode::Slippage);
    }
    if n == 0 {
        return Err(ErrorCode::DustTooSmall);
    }
    let remaining = match cfg.migration_cap.checked_sub(cfg.migration_minted) {
        Some(x) => x,
        None => return Err(ErrorCode::CapExceeded),
    };
    if n > remaining {
        return Err(ErrorCode::CapExceeded);
    }
    let mut actions: Vec<LedgerAction> = Vec::new();
    actions.push(
        LedgerAction::Burn {
            mint: cfg.old_mint,
            from: a.user_old_ata.key,
            authority: a.user,
            amount: amount_old,
        },
    );
    actions.push(LedgerAction::MintTo { mint: cfg.new_mint, to: a.user_new_ata.key, amount: n });
    proof {
        assert(actions@ =~= redeem_actions(*old(cfg), *a, amount_old, n));
    }
    cfg.migration_minted = cfg.migration_minted + n;
    Ok((actions, Redeemed { user: a.user, burned_old: amount_old, minted_new: n }))
}

} // verus!
