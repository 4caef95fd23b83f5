//! Properties of the ledger over single transitions and over whole histories.
use vstd::prelude::*;
use crate::admin::{AdminOnly, Finalize, admin_error, finalize_error};
use crate::config::{Config, Initialize, InitializeParams, fixed_sum, initial_config, initialize_error};
use crate::convert::{converted, pow10, u128_max};
use crate::redeem::{Redeem, redeem_outcome, with_minted};
use crate::types::ErrorCode;

verus! {

/// One call against an existing record, with the inputs it is given.
#[derive(Clone, Copy, Debug)]
#[allow(inconsistent_fields)]
pub enum Transition {
    Redeem { accounts: Redeem, now: i64, amount_old: u64, min_new_out: u64 },
    SetPause { accounts: AdminOnly, paused: bool },
    UpdateWindow { accounts: AdminOnly, start_ts: i64, end_ts: i64 },
    Finalize { accounts: Finalize, now: i64 },
}

/// The record after one transition, as the transitions' contracts give it;
/// a refused transition leaves it unchanged.
pub open spec fn step(c: Config, t: Transition) -> Config {
    match t {
        Transition::Redeem { accounts, now, amount_old, min_new_out } => {
            match redeem_outcome(c, accounts, now, amount_old, min_new_out) {
                Ok(n) => with_minted(c, n),
                Err(_) => c,
            }
        },
        Transition::SetPause { accounts, paused } => {
            if admin_error(c, accounts.admin, accounts.new_mint) is None {
                Config { paused, ..c }
            } else {
                c
            }
        },
        Transition::UpdateWindow { accounts, start_ts, end_ts } => {
            if admin_error(c, accounts.admin, accounts.new_mint) is None {
                Config { start_ts, end_ts, ..c }
            } else {
                c
            }
        },
        Transition::Finalize { accounts, now } => {
            if finalize_error(c, accounts, now) is None {
                Config { finalized: true, ..c }
            } else {
                c
            }
        },
    }
}

/// New units minted by one transition: the output of a successful redemption.
pub open spec fn minted_by(c: Config, t: Transition) -> int {
    match t {
        Transition::Redeem { accounts, now, amount_old, min_new_out } => {
            match redeem_outcome(c, accounts, now, amount_old, min_new_out) {
                Ok(n) => n as int,
                Err(_) => 0,
            }
        },
        _ => 0,
    }
}

/// Old units burned by one transition: the input of a successful redemption.
pub open spec fn burned_by(c: Config, t: Transition) -> int {
    match t {
        Transition::Redeem { accounts, now, amount_old, min_new_out } => {
            match redeem_outcome(c, accounts, now, amount_old, min_new_out) {
                Ok(_) => amount_old as int,
                Err(_) => 0,
            }
        },
        _ => 0,
    }
}

/// The record after a history of transitions, in order.
pub open spec fn run(c: Config, ts: Seq<Transition>) -> Config
    decreases ts.len(),
{
    if ts.len() == 0 {
        c
    } else {
        step(run(c, ts.drop_last()), ts.last())
    }
}

/// All new units minted over a history.
pub open spec fn total_minted(c: Config, ts: Seq<Transition>) -> int
    decreases ts.len(),
{
    if ts.len() == 0 {
        0
    } else {
        total_minted(c, ts.drop_last()) + minted_by(run(c, ts.drop_last()), ts.last())
    }
}

/// All old units burned over a history.
pub open spec fn total_burned(c: Config, ts: Seq<Transition>) -> int
    decreases ts.len(),
{
    if ts.len() == 0 {
        0
    } else {
        total_burned(c, ts.drop_last()) + burned_by(run(c, ts.drop_last()), ts.last())
    }
}

proof fn lemma_zero_converts_to_zero(ratio_num: u64, ratio_den: u64, old_decimals: u8, new_decimals: u8)
    ensures
        converted(0, ratio_num, ratio_den, old_decimals, new_decimals) is None || converted(
            0,
            ratio_num,
            ratio_den,
            old_decimals,
            new_decimals,
        ) == Some(0u64),
        ratio_den > 0 && pow10(new_decimals as nat) <= u128_max() && ratio_den * pow10(
            old_decimals as nat,
        ) <= u128_max() ==> converted(0, ratio_num, ratio_den, old_decimals, new_decimals) == Some(
            0u64,
        ),
{
    let pn = pow10(new_decimals as nat);
    let den = ratio_den * pow10(old_decimals as nat);
    assert((0u64 as int) * (ratio_num as int) * pn == 0) by (nonlinear_arith);
    crate::convert::lemma_pow10_monotonic(0, old_decimals as nat);
    assert(ratio_den > 0 ==> den > 0) by (nonlinear_arith)
        requires
            pow10(old_decimals as nat) >= 1,
            den == ratio_den * pow10(old_decimals as nat),
    ;
    assert(den != 0 ==> 0int / den == 0) by (nonlinear_arith);
    assert(ratio_den > 0 ==> den >= pow10(old_decimals as nat)) by (nonlinear_arith)
        requires
            pow10(old_decimals as nat) >= 1,
            den == ratio_den * pow10(old_decimals as nat),
    ;
}

proof fn lemma_step(c: Config, t: Transition)
    requires
        c.wf(),
    ensures
        step(c, t).wf(),
        step(c, t).migration_minted == c.migration_minted + minted_by(c, t),
        step(c, t).migration_cap == c.migration_cap,
        minted_by(c, t) >= 0,
        c.finalized ==> step(c, t).finalized && minted_by(c, t) == 0,
        minted_by(c, t) > 0 ==> burned_by(c, t) > 0,
{
    lemma_zero_converts_to_zero(c.ratio_num, c.ratio_den, c.old_decimals, c.new_decimals);
}

/// Conservation: over any history of a well-formed record, the counter grows
/// by exactly the units minted by redemption, never passes the migration cap,
/// and units are minted only where old units were burned.
pub proof fn lemma_conservation(c: Config, ts: Seq<Transition>)
    requires
        c.wf(),
    ensures
        run(c, ts).wf(),
        run(c, ts).migration_cap == c.migration_cap,
        run(c, ts).migration_minted == c.migration_minted + total_minted(c, ts),
        run(c, ts).migration_minted <= c.migration_cap,
        total_minted(c, ts) >= 0,
        total_burned(c, ts) >= 0,
        total_minted(c, ts) > 0 ==> total_burned(c, ts) > 0,
    decreases ts.len(),
{
    if ts.len() > 0 {
        lemma_conservation(c, ts.drop_last());
        lemma_step(run(c, ts.drop_last()), ts.last());
    }
}

/// Over the whole life of a record, from its creation on, the counter equals
/// the sum of all units minted by redemption and stays within the migration cap.
pub proof fn lemma_lifetime_conservation(a: Initialize, p: InitializeParams, ts: Seq<Transition>)
    requires
        initialize_error(a, p) is None,
    ensures
        run(initial_config(a, p), ts).migration_minted == total_minted(initial_config(a, p), ts),
        total_minted(initial_config(a, p), ts) <= p.migration_cap,
{
    lemma_conservation(initial_config(a, p), ts);
}

/// The counter never decreases along a history and never passes the
/// migration cap: each prefix ends with no more minted than any longer one.
pub proof fn lemma_minted_monotonic(c: Config, ts: Seq<Transition>, i: int, j: int)
    requires
        c.wf(),
        0 <= i <= j <= ts.len(),
    ensures
        run(c, ts.take(i)).migration_minted <= run(c, ts.take(j)).migration_minted,
        run(c, ts.take(j)).migration_minted <= c.migration_cap,
    decreases j - i,
{
    lemma_conservation(c, ts.take(j));
    if i < j {
        lemma_minted_monotonic(c, ts, i, j - 1);
        assert(ts.take(j).drop_last() =~= ts.take(j - 1));
        lemma_conservation(c, ts.take(j - 1));
        lemma_step(run(c, ts.take(j - 1)), ts[j - 1]);
    }
}

/// A record is created only when the fixed allocations and the migration cap
/// partition the total supply exactly; any mismatch refuses creation.
pub proof fn lemma_allocation_partition(a: Initialize, p: InitializeParams)
    ensures
        initialize_error(a, p) is None ==> fixed_sum(p) == p.total_cap - p.migration_cap,
        fixed_sum(p) != p.total_cap - p.migration_cap ==> initialize_error(a, p) is Some,
{
}

/// Rounding goes toward the ledger: nothing converts to a positive amount
/// from zero, and a redemption that would mint zero is always refused.
pub proof fn lemma_no_dust(c: Config, a: Redeem, now: i64, amount_old: u64, min_new_out: u64)
    ensures
        c.ratio_den > 0 && pow10(c.new_decimals as nat) <= u128_max() && c.ratio_den * pow10(
            c.old_decimals as nat,
        ) <= u128_max() ==> converted(0, c.ratio_num, c.ratio_den, c.old_decimals, c.new_decimals)
            == Some(0u64),
        redeem_outcome(c, a, now, 0, min_new_out) is Err,
        redeem_outcome(c, a, now, amount_old, min_new_out) is Ok ==> {
            &&& redeem_outcome(c, a, now, amount_old, min_new_out)->Ok_0 > 0
            &&& redeem_outcome(c, a, now, amount_old, min_new_out)->Ok_0 >= min_new_out
        },
{
    lemma_zero_converts_to_zero(c.ratio_num, c.ratio_den, c.old_decimals, c.new_decimals);
}

/// Both ends of an ordered window are open to redemption: an unpaused record
/// gives the same outcome at `start_ts` as at `end_ts`, never `OutsideWindow`,
/// while one unit before the start or after the end gives `OutsideWindow`.
pub proof fn lemma_window_inclusive(c: Config, a: Redeem, amount_old: u64, min_new_out: u64)
    requires
        !c.paused,
        c.start_ts <= c.end_ts,
    ensures
        redeem_outcome(c, a, c.start_ts, amount_old, min_new_out) == redeem_outcome(
            c,
            a,
            c.end_ts,
            amount_old,
            min_new_out,
        ),
        redeem_outcome(c, a, c.start_ts, amount_old, min_new_out) != Err::<u64, ErrorCode>(
            ErrorCode::OutsideWindow,
        ),
        c.start_ts > i64::MIN ==> redeem_outcome(
            c,
            a,
            (c.start_ts - 1) as i64,
            amount_old,
            min_new_out,
        ) == Err::<u64, ErrorCode>(ErrorCode::OutsideWindow),
        c.end_ts < i64::MAX ==> redeem_outcome(c, a, (c.end_ts + 1) as i64, amount_old, min_new_out)
            == Err::<u64, ErrorCode>(ErrorCode::OutsideWindow),
{
}

/// Finalization by the admin is refused with `TooEarly` until the window has
/// closed, succeeds once, and is refused with `AlreadyFinalized` afterwards.
pub proof fn lemma_finalize_ordering(c: Config, a: Finalize, now: i64, later: i64)
    requires
        admin_error(c, a.admin, a.new_mint) is None,
    ensures
        !c.finalized && now <= c.end_ts ==> finalize_error(c, a, now) == Some(ErrorCode::TooEarly),
        !c.finalized && now > c.end_ts ==> finalize_error(c, a, now) is None,
        finalize_error(c, a, now) is None ==> finalize_error(
            step(c, Transition::Finalize { accounts: a, now }),
            a,
            later,
        ) == Some(ErrorCode::AlreadyFinalized),
{
}

/// Finalization is terminal: a finalized record refuses every redemption, and
/// over any later history it stays finalized and mints nothing more.
pub proof fn lemma_finalized_is_terminal(
    c: Config,
    ts: Seq<Transition>,
    a: Redeem,
    now: i64,
    amount_old: u64,
    min_new_out: u64,
)
    requires
        c.wf(),
        c.finalized,
    ensures
        redeem_outcome(c, a, now, amount_old, min_new_out) is Err,
        run(c, ts).finalized,
        run(c, ts).migration_minted == c.migration_minted,
        total_minted(c, ts) == 0,
    decreases ts.len(),
{
    if ts.len() > 0 {
        lemma_finalized_is_terminal(c, ts.drop_last(), a, now, amount_old, min_new_out);
        lemma_conservation(c, ts.drop_last());
        lemma_step(run(c, ts.drop_last()), ts.last());
    }
}

} // verus!
