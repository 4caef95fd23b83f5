//! Identities, errors, account views, events and ledger actions.
use vstd::prelude::*;

verus! {

/// A 32-byte identity: an asset, an account or a signer.
#[derive(Clone, Copy, Debug)]
pub struct Address {
    pub bytes: [u8; 32],
}

impl View for Address {
    type V = Seq<u8>;

    open spec fn view(&self) -> Seq<u8> {
        self.bytes@
    }
}

impl Address {
    /// Whether two identities hold the same bytes.
    pub fn same(&self, other: &Address) -> (r: bool)
        ensures
            r == (self@ == other@),
    {
        let mut i: usize = 0;
        while i < 32
            invariant
                i <= 32,
                self@.len() == 32,
                other@.len() == 32,
                forall|k: int| 0 <= k < i ==> self@[k] == other@[k],
            decreases 32 - i,
        {
            if self.bytes[i] != other.bytes[i] {
                return false;
            }
            i = i + 1;
        }
        proof {
            assert(self@ =~= other@);
        }
        true
    }
}

/// Whether an optional identity is present and equal to `k`.
pub open spec fn holds_key(o: Option<Address>, k: Address) -> bool {
    match o {
        Some(x) => x@ == k@,
        None => false,
    }
}

/// Tests `holds_key`.
pub fn is_key(o: &Option<Address>, k: &Address) -> (r: bool)
    ensures
        r == holds_key(*o, *k),
{
    match o {
        Some(x) => x.same(k),
        None => false,
    }
}

/// Why a transition was refused.
#[derive(Clone, Copy, Debug, PartialEq, Eq, Structural)]
pub enum ErrorCode {
    NotAdmin,
    MathOverflow,
    BadAllocationMath,
    CapExceeded,
    Paused,
    OutsideWindow,
    WrongMint,
    WrongOwner,
    Slippage,
    InvalidCap,
    TooEarly,
    AlreadyFinalized,
    InvalidRatio,
    DustTooSmall,
    WrongMintAuthority,
    WrongFreezeAuthority,
}

impl ErrorCode {
    /// A short human-readable description of the error.
    pub fn message(&self) -> (r: &'static str) {
        match self {
            ErrorCode::NotAdmin => "Caller is not admin",
            ErrorCode::MathOverflow => "Math overflow",
            ErrorCode::BadAllocationMath => "Invalid allocation math",
            ErrorCode::CapExceeded => "Migration cap exceeded",
            ErrorCode::Paused => "Program is paused",
            ErrorCode::OutsideWindow => "Outside migration window",
            ErrorCode::WrongMint => "Wrong mint provided",
            ErrorCode::WrongOwner => "Wrong owner for token account",
            ErrorCode::Slippage => "Minimum out not satisfied",
            ErrorCode::InvalidCap => "Invalid cap config",
            ErrorCode::TooEarly => "Finalize called too early",
            ErrorCode::AlreadyFinalized => "Already finalized",
            ErrorCode::InvalidRatio => "Invalid ratio",
            ErrorCode::DustTooSmall => "Dust too small after conversion",
            ErrorCode::WrongMintAuthority => "New mint authority isn't the program authority",
            ErrorCode::WrongFreezeAuthority => "Freeze authority isn't the admin key",
        }
    }
}

/// What the logic reads of an asset's definition.
#[derive(Clone, Copy, Debug)]
pub struct MintInfo {
    pub key: Address,
    pub decimals: u8,
    pub mint_authority: Option<Address>,
    pub freeze_authority: Option<Address>,
}

/// What the logic reads of a holder's balance account.
#[derive(Clone, Copy, Debug)]
pub struct TokenAccountInfo {
    pub key: Address,
    pub mint: Address,
    pub owner: Address,
}

/// An operation that the asset ledger carries out for a committed transition.
/// Mints and revocations are signed by the authority derived from `mint`.
#[derive(Clone, Copy, Debug)]
pub enum LedgerAction {
    Burn { mint: Address, from: Address, authority: Address, amount: u64 },
    MintTo { mint: Address, to: Address, amount: u64 },
    RevokeMintAuthority { mint: Address },
}

/// Emitted when a record is created.
#[derive(Clone, Copy, Debug)]
pub struct Initialized {
    pub admin: Address,
    pub old_mint: Address,
    pub new_mint: Address,
    pub total_cap: u64,
    pub migration_cap: u64,
    pub start_ts: i64,
    pub end_ts: i64,
}

/// Emitted on each successful redemption.
#[derive(Clone, Copy, Debug)]
pub struct Redeemed {
    pub user: Address,
    pub burned_old: u64,
    pub minted_new: u64,
}

/// Emitted when the pause switch is set.
#[derive(Clone, Copy, Debug)]
pub struct Paused {
    pub paused: bool,
}

/// Emitted when the window is replaced.
#[derive(Clone, Copy, Debug)]
pub struct WindowUpdated {
    pub start_ts: i64,
    pub end_ts: i64,
}

/// Emitted when minting is revoked for good.
#[derive(Clone, Copy, Debug)]
pub struct Finalized {}

} // verus!
