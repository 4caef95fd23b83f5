//! The persisted migration record and its one-time creation.
use vstd::prelude::*;
use crate::types::{Address, ErrorCode, Initialized, LedgerAction, MintInfo, TokenAccountInfo, holds_key, is_key};

verus! {

/// The single persisted record of one migration, keyed by the new asset.
#[derive(Clone, Copy, Debug)]
pub struct Config {
    pub bump: u8,
    pub mint_auth_bump: u8,
    pub admin: Address,
    pub old_mint: Address,
    pub new_mint: Address,
    pub ratio_num: u64,
    pub ratio_den: u64,
    pub old_decimals: u8,
    pub new_decimals: u8,
    pub total_cap: u64,
    pub migration_cap: u64,
    pub migration_minted: u64,
    pub paused: bool,
    pub start_ts: i64,
    pub end_ts: i64,
    pub finalized: bool,
}

impl Config {
    /// The record's invariant: a positive ratio denominator, the migration cap
    /// within the total cap, and the minted counter within the migration cap.
    pub open spec fn wf(&self) -> bool {
        &&& self.ratio_den > 0
        &&& self.migration_cap <= self.total_cap
        &&& self.migration_minted <= self.migration_cap
    }
}

/// The parameters chosen by whoever creates the record.
#[derive(Clone, Copy, Debug)]
pub struct InitializeParams {
    pub admin: Address,
    pub ratio_num: u64,
    pub ratio_den: u64,
    pub total_cap: u64,
    pub migration_cap: u64,
    pub treasury_amount: u64,
    pub liquidity_amount: u64,
    pub contributors_amount: u64,
    pub start_ts: i64,
    pub end_ts: i64,
}

/// What creating a record reads of the ledger: both asset definitions, the
/// authority derived for the new asset (with the record's derivation bumps),
/// and the three accounts that receive the fixed allocations.
#[derive(Clone, Copy, Debug)]
pub struct Initialize {
    pub old_mint: MintInfo,
    pub new_mint: MintInfo,
    pub mint_authority: Address,
    pub bump: u8,
    pub mint_auth_bump: u8,
    pub treasury_ata: TokenAccountInfo,
    pub liquidity_ata: TokenAccountInfo,
    pub contributors_ata: TokenAccountInfo,
}

/// The sum of the three fixed allocations.
pub open spec fn fixed_sum(p: InitializeParams) -> int {
    p.treasury_amount + p.liquidity_amount + p.contributors_amount
}

/// The first check that refuses to create the record, if any.
pub open spec fn initialize_error(a: Initialize, p: InitializeParams) -> Option<ErrorCode> {
    if p.ratio_den == 0 {
        Some(ErrorCode::InvalidRatio)
    } else if p.migration_cap > p.total_cap {
        Some(ErrorCode::InvalidCap)
    } else if !holds_key(a.new_mint.mint_authority, a.mint_authority) {
        Some(ErrorCode::WrongMintAuthority)
    } else if !holds_key(a.new_mint.freeze_authority, p.admin) {
        Some(ErrorCode::WrongFreezeAuthority)
    } else if fixed_sum(p) != p.total_cap - p.migration_cap {
        Some(ErrorCode::BadAllocationMath)
    } else if a.treasury_ata.mint@ != a.new_mint.key@ || a.liquidity_ata.mint@ != a.new_mint.key@
        || a.contributors_ata.mint@ != a.new_mint.key@ {
        Some(ErrorCode::WrongMint)
    } else {
        None
    }
}

/// The record as created: decimals come from the asset definitions, the
/// counter starts at zero, unpaused and not finalized.
pub open spec fn initial_config(a: Initialize, p: InitializeParams) -> Config {
    Config {
        bump: a.bump,
        mint_auth_bump: a.mint_auth_bump,
        admin: p.admin,
        old_mint: a.old_mint.key,
        new_mint: a.new_mint.key,
        ratio_num: p.ratio_num,
        ratio_den: p.ratio_den,
        old_decimals: a.old_mint.decimals,
        new_decimals: a.new_mint.decimals,
        total_cap: p.total_cap,
        migration_cap: p.migration_cap,
        migration_minted: 0,
        paused: false,
        start_ts: p.start_ts,
        end_ts: p.end_ts,
        finalized: false,
    }
}

/// The fixed allocations, minted once outside the migration cap.
pub open spec fn initial_mints(a: Initialize, p: InitializeParams) -> Seq<LedgerAction> {
    seq![
        LedgerAction::MintTo { mint: a.new_mint.key, to: a.treasury_ata.key, amount: p.treasury_amount },
        LedgerAction::MintTo { mint: a.new_mint.key, to: a.liquidity_ata.key, amount: p.liquidity_amount },
        LedgerAction::MintTo { mint: a.new_mint.key, to: a.contributors_ata.key, amount: p.contributors_amount },
    ]
}

/// The event that announces a new record.
pub open spec fn initialized_event(c: Config) -> Initialized {
    Initialized {
        admin: c.admin,
        old_mint: c.old_mint,
        new_mint: c.new_mint,
        total_cap: c.total_cap,
        migration_cap: c.migration_cap,
        start_ts: c.start_ts,
        end_ts: c.end_ts,
    }
}

/// Creates the record after checking the ratio, the caps, the authorities of
/// the new asset, the allocation arithmetic and the allocation accounts.
/// On success it returns the record, the fixed-allocation mints and the event;
/// on failure the first check that failed, and nothing is created.
pub fn initialize(a: &Initialize, p: &InitializeParams) -> (r: Result<
    (Config, Vec<LedgerAction>, Initialized),
    ErrorCode,
>)
    ensures
        r is Err <==> initialize_error(*a, *p) is Some,
        r is Err ==> initialize_error(*a, *p) == Some(r->Err_0),
        r is Ok ==> {
            &&& r->Ok_0.0 == initial_config(*a, *p)
            &&& r->Ok_0.0.wf()
            &&& r->Ok_0.1@ == initial_mints(*a, *p)
            &&& r->Ok_0.2 == initialized_event(initial_config(*a, *p))
        },
{
    if p.ratio_den == 0 {
        return Err(ErrorCode::InvalidRatio);
    }
    if p.migration_cap > p.total_cap {
        return Err(ErrorCode::InvalidCap);
    }
    if !is_key(&a.new_mint.mint_authority, &a.mint_authority) {
        return Err(ErrorCode::WrongMintAuthority);
    }
    if !is_key(&a.new_mint.freeze_authority, &p.admin) {
        return Err(ErrorCode::WrongFreezeAuthority);
    }
    let sum: u128 = (p.treasury_amount as u128) + (p.liquidity_amount as u128)
        + (p.contributors_amount as u128);
    let expected: u128 = (p.total_cap - p.migration_cap) as u128;
    if sum != expected {
        return Err(ErrorCode::BadAllocationMath);
    }
    let new_key = a.new_mint.key;
    if !a.treasury_ata.mint.same(&new_key) || !a.liquidity_ata.mint.same(&new_key)
        || !a.contributors_ata.mint.same(&new_key) {
        return Err(ErrorCode::WrongMint);
    }
    let cfg = Config {
        bump: a.bump,
        mint_auth_bump: a.mint_auth_bump,
        admin: p.admin,
        old_mint: a.old_mint.key,
        new_mint: new_key,
        ratio_num: p.ratio_num,
        ratio_den: p.ratio_den,
        old_decimals: a.old_mint.decimals,
        new_decimals: a.new_mint.decimals,
        total_cap: p.total_cap,
        migration_cap: p.migration_cap,
        migration_minted: 0,
        paused: false,
        start_ts: p.start_ts,
        end_ts: p.end_ts,
        finalized: false,
    };
    let mut mints: Vec<LedgerAction> = Vec::new();
    mints.push(LedgerAction::MintTo { mint: new_key, to: a.treasury_ata.key, amount: p.treasury_amount });
    mints.push(LedgerAction::MintTo { mint: new_key, to: a.liquidity_ata.key, amount: p.liquidity_amount });
    mints.push(
        LedgerAction::MintTo { mint: new_key, to: a.contributors_ata.key, amount: p.contributors_amount },
    );
    proof {
        assert(mints@ =~= initial_mints(*a, *p));
    }
    let event = Initialized {
        admin: cfg.admin,
        old_mint: cfg.old_mint,
        new_mint: cfg.new_mint,
        total_cap: cfg.total_cap,
        migration_cap: cfg.migration_cap,
        start_ts: cfg.start_ts,
        end_ts: cfg.end_ts,
    };
    Ok((cfg, mints, event))
}

} // verus!
