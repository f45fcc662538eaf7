//! Planned ledger effects.
//!
//! A processor never moves a balance itself: it returns an exact plan of
//! the transfers, mints, burns and account creations the surrounding
//! program must issue, all within one all-or-nothing call. Calls the pool
//! itself must authorize carry a `CustodyAuthority`: the seeds and bump
//! from which the pool's derived signing identity is recomputed.

use vstd::prelude::*;
use crate::state::ConfigView;

verus! {

/// Proof of control over the pool's derived identity: the seed values the
/// record was created with, from which the program re-derives and signs
/// for the custody address.
#[derive(Clone, Copy, Debug, PartialEq, Eq)]
pub struct CustodyAuthority {
    pub seed: u64,
    pub mint_x: [u8; 32],
    pub mint_y: [u8; 32],
    pub bump: u8,
}

/// True when the custody seeds are exactly those of the given record.
pub open spec fn custody_matches(c: CustodyAuthority, cfg: ConfigView) -> bool {
    &&& c.seed == cfg.seed
    &&& c.mint_x@ == cfg.mint_x
    &&& c.mint_y@ == cfg.mint_y
    &&& c.bump == cfg.config_bump
}

/// One token transfer to issue: `amount` moves from `from` to `to`,
/// authorized by `authority`.
#[derive(Clone, Copy, Debug, PartialEq, Eq)]
pub struct Transfer {
    pub from: [u8; 32],
    pub to: [u8; 32],
    pub authority: [u8; 32],
    pub amount: u64,
}

/// One share mint to issue: `amount` new units of `mint` credited to
/// `account`, authorized by `mint_authority`.
#[derive(Clone, Copy, Debug, PartialEq, Eq)]
pub struct MintTo {
    pub mint: [u8; 32],
    pub account: [u8; 32],
    pub mint_authority: [u8; 32],
    pub amount: u64,
}

/// One share burn to issue: `amount` units of `mint` removed from
/// `account`, authorized by `authority`.
#[derive(Clone, Copy, Debug, PartialEq, Eq)]
pub struct Burn {
    pub account: [u8; 32],
    pub mint: [u8; 32],
    pub authority: [u8; 32],
    pub amount: u64,
}

/// One account creation to issue: allocate `space` bytes at `target`,
/// owned by `owner`.
#[derive(Clone, Copy, Debug, PartialEq, Eq)]
pub struct CreateAccount {
    pub target: [u8; 32],
    pub space: u64,
    pub owner: [u8; 32],
}

/// One mint initialization to issue on a freshly created account.
#[derive(Clone, Copy, Debug, PartialEq, Eq)]
pub struct InitializeMint {
    pub mint: [u8; 32],
    pub decimals: u8,
    pub mint_authority: [u8; 32],
}

} // verus!
