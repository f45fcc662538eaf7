//! The persistent configuration record of one pool.
//!
//! A `Config` stores lifecycle state, the disambiguating seed, the optional
//! administrative authority, the two reserve asset identities, the
//! basis-point fee and the address-derivation bump. On the ledger it lives
//! as a fixed little-endian 108-byte record; `load` and `to_bytes` are the
//! strict codec for that layout.

use vstd::prelude::*;
use vstd::bytes::{
    lemma_auto_spec_u16_to_from_le_bytes, lemma_auto_spec_u64_to_from_le_bytes,
    spec_u16_from_le_bytes, spec_u64_from_le_bytes, u16_from_le_bytes, u16_to_le_bytes,
    u64_from_le_bytes, u64_to_le_bytes,
};
use crate::account::read_address;
use crate::errors::AmmError;

verus! {

broadcast use vstd::array::group_array_axioms;

/// Lifecycle states of a pool.
#[derive(Clone, Copy, Debug, PartialEq, Eq)]
pub enum AmmState {
    Uninitialized,
    Initialized,
    Disabled,
    WithdrawOnly,
}

/// The byte stored on the ledger for each lifecycle state.
pub open spec fn state_code(s: AmmState) -> u8 {
    match s {
        AmmState::Uninitialized => 0,
        AmmState::Initialized => 1,
        AmmState::Disabled => 2,
        AmmState::WithdrawOnly => 3,
    }
}

impl AmmState {
    /// The byte stored on the ledger for this lifecycle state.
    pub fn code(self) -> (r: u8)
        ensures
            r == state_code(self),
    {
        match self {
            AmmState::Uninitialized => 0,
            AmmState::Initialized => 1,
            AmmState::Disabled => 2,
            AmmState::WithdrawOnly => 3,
        }
    }
}

/// True of a 32-byte identity made only of zero bytes: the absent
/// authority.
pub open spec fn is_zero_address(a: Seq<u8>) -> bool {
    a.len() == 32 && (forall|i: int| 0 <= i < 32 ==> a[i] == 0)
}

/// Mathematical value of a pool configuration record.
pub ghost struct ConfigView {
    pub state: u8,
    pub seed: u64,
    pub authority: Seq<u8>,
    pub mint_x: Seq<u8>,
    pub mint_y: Seq<u8>,
    pub fee: u16,
    pub config_bump: u8,
}

impl ConfigView {
    /// The record invariant the program maintains: a defined lifecycle
    /// state and a fee strictly below the basis-point denominator.
    pub open spec fn well_formed(self) -> bool {
        self.state <= state_code(AmmState::WithdrawOnly) && self.fee < 10000
    }
}

/// What a 108-byte record holds: state byte, little-endian seed, the
/// three 32-byte identities, little-endian fee, and the bump byte.
pub open spec fn spec_parse_config(s: Seq<u8>) -> ConfigView {
    ConfigView {
        state: s[0],
        seed: spec_u64_from_le_bytes(s.subrange(1, 9)),
        authority: s.subrange(9, 41),
        mint_x: s.subrange(41, 73),
        mint_y: s.subrange(73, 105),
        fee: spec_u16_from_le_bytes(s.subrange(105, 107)),
        config_bump: s[107],
    }
}

/// The pool configuration record.
pub struct Config {
    state: u8,
    seed: u64,
    authority: [u8; 32],
    mint_x: [u8; 32],
    mint_y: [u8; 32],
    fee: u16,
    config_bump: [u8; 1],
}

impl View for Config {
    type V = ConfigView;

    closed spec fn view(&self) -> ConfigView {
        ConfigView {
            state: self.state,
            seed: self.seed,
            authority: self.authority@,
            mint_x: self.mint_x@,
            mint_y: self.mint_y@,
            fee: self.fee,
            config_bump: self.config_bump@[0],
        }
    }
}

impl Default for Config {
    /// The all-zero record: uninitialized state, no authority, no assets.
    fn default() -> (r: Self)
        ensures
            r@.state == 0,
            r@.seed == 0,
            is_zero_address(r@.authority),
            is_zero_address(r@.mint_x),
            is_zero_address(r@.mint_y),
            r@.fee == 0,
            r@.config_bump == 0,
    {
        Config {
            state: 0,
            seed: 0,
            authority: [0u8; 32],
            mint_x: [0u8; 32],
            mint_y: [0u8; 32],
            fee: 0,
            config_bump: [0u8; 1],
        }
    }
}

impl Config {
    /// Length in bytes of the record on the ledger.
    pub const LEN: usize = 108;

    /// Decode a record from its exact 108-byte ledger form.
    pub fn load(bytes: &[u8]) -> (r: Result<Config, AmmError>)
        ensures
            bytes@.len() != 108 ==> r matches Err(AmmError::InvalidAccountData),
            bytes@.len() == 108 ==> (r matches Ok(c) && c@ == spec_parse_config(bytes@)),
    {
        if bytes.len() != 108 {
            return Err(AmmError::InvalidAccountData);
        }
        let state = bytes[0];
        let seed = u64_from_le_bytes(&bytes[1..9]);
        let authority = read_address(bytes, 9);
        let mint_x = read_address(bytes, 41);
        let mint_y = read_address(bytes, 73);
        let fee = u16_from_le_bytes(&bytes[105..107]);
        let config_bump = [bytes[107]];
        Ok(Config { state, seed, authority, mint_x, mint_y, fee, config_bump })
    }

    /// Encode the record into its 108-byte ledger form; decoding the
    /// result yields this record again.
    pub fn to_bytes(&self) -> (r: Vec<u8>)
        ensures
            r@.len() == 108,
            spec_parse_config(r@) == self@,
    {
        let mut out: Vec<u8> = Vec::new();
        out.push(self.state);
        let seed_bytes = u64_to_le_bytes(self.seed);
        push_slice(&mut out, seed_bytes.as_slice());
        push_slice(&mut out, self.authority.as_slice());
        push_slice(&mut out, self.mint_x.as_slice());
        push_slice(&mut out, self.mint_y.as_slice());
        let fee_bytes = u16_to_le_bytes(self.fee);
        push_slice(&mut out, fee_bytes.as_slice());
        out.push(self.config_bump[0]);
        proof {
            lemma_auto_spec_u64_to_from_le_bytes();
            lemma_auto_spec_u16_to_from_le_bytes();
            assert(out@.subrange(1, 9) =~= seed_bytes@);
            assert(out@.subrange(9, 41) =~= self.authority@);
            assert(out@.subrange(41, 73) =~= self.mint_x@);
            assert(out@.subrange(73, 105) =~= self.mint_y@);
            assert(out@.subrange(105, 107) =~= fee_bytes@);
        }
        out
    }

    /// Lifecycle state byte.
    pub fn state(&self) -> (r: u8)
        ensures
            r == self@.state,
    {
        self.state
    }

    /// Pool-disambiguating seed.
    pub fn seed(&self) -> (r: u64)
        ensures
            r == self@.seed,
    {
        self.seed
    }

    /// Administrative authority identity; all zero when absent.
    pub fn authority(&self) -> (r: [u8; 32])
        ensures
            r@ == self@.authority,
    {
        self.authority
    }

    /// Identity of reserve asset X.
    pub fn mint_x(&self) -> (r: [u8; 32])
        ensures
            r@ == self@.mint_x,
    {
        self.mint_x
    }

    /// Identity of reserve asset Y.
    pub fn mint_y(&self) -> (r: [u8; 32])
        ensures
            r@ == self@.mint_y,
    {
        self.mint_y
    }

    /// Basis-point trading fee.
    pub fn fee(&self) -> (r: u16)
        ensures
            r == self@.fee,
    {
        self.fee
    }

    /// Address-derivation bump of the record's own derived address.
    pub fn config_bump(&self) -> (r: [u8; 1])
        ensures
            r@[0] == self@.config_bump,
    {
        self.config_bump
    }

    /// Set the lifecycle state; bytes past the last defined state are
    /// refused.
    pub fn set_state(&mut self, state: u8) -> (r: Result<(), AmmError>)
        ensures
            state > state_code(AmmState::WithdrawOnly) ==> (r matches Err(
                AmmError::InvalidAccountData,
            ) && *final(self) == *old(self)),
            state <= state_code(AmmState::WithdrawOnly) ==> (r is Ok && final(self)@ == (
            ConfigView { state, ..old(self)@ })),
    {
        if state > AmmState::WithdrawOnly.code() {
            return Err(AmmError::InvalidAccountData);
        }
        self.state = state;
        Ok(())
    }

    pub fn set_seed(&mut self, seed: u64)
        ensures
            final(self)@ == (ConfigView { seed, ..old(self)@ }),
    {
        self.seed = seed;
    }

    pub fn set_authority(&mut self, authority: [u8; 32])
        ensures
            final(self)@ == (ConfigView { authority: authority@, ..old(self)@ }),
    {
        self.authority = authority;
    }

    pub fn set_mint_x(&mut self, mint_x: [u8; 32])
        ensures
            final(self)@ == (ConfigView { mint_x: mint_x@, ..old(self)@ }),
    {
        self.mint_x = mint_x;
    }

    pub fn set_mint_y(&mut self, mint_y: [u8; 32])
        ensures
            final(self)@ == (ConfigView { mint_y: mint_y@, ..old(self)@ }),
    {
        self.mint_y = mint_y;
    }

    /// Set the basis-point fee; values at or past the denominator are
    /// refused.
    pub fn set_fee(&mut self, fee: u16) -> (r: Result<(), AmmError>)
        ensures
            fee >= 10000 ==> (r matches Err(AmmError::InvalidAccountData) && *final(self) == *old(
                self,
            )),
            fee < 10000 ==> (r is Ok && final(self)@ == (ConfigView { fee, ..old(self)@ })),
    {
        if fee >= 10000 {
            return Err(AmmError::InvalidAccountData);
        }
        self.fee = fee;
        Ok(())
    }

    pub fn set_config_bump(&mut self, config_bump: [u8; 1])
        ensures
            final(self)@ == (ConfigView { config_bump: config_bump@[0], ..old(self)@ }),
    {
        self.config_bump = config_bump;
    }

    /// Write every configuration field at once and mark the record
    /// initialized, as pool creation does. A fee at or past the
    /// denominator is refused; the fields already written before the fee
    /// check keep their new values, exactly as the ledger record would.
    pub fn set_inner(
        &mut self,
        seed: u64,
        authority: [u8; 32],
        mint_x: [u8; 32],
        mint_y: [u8; 32],
        fee: u16,
        config_bump: [u8; 1],
    ) -> (r: Result<(), AmmError>)
        ensures
            fee < 10000 ==> (r is Ok && final(self)@ == (ConfigView {
                state: state_code(AmmState::Initialized),
                seed,
                authority: authority@,
                mint_x: mint_x@,
                mint_y: mint_y@,
                fee,
                config_bump: config_bump@[0],
            }) && final(self)@.well_formed()),
            fee >= 10000 ==> (r matches Err(AmmError::InvalidAccountData) && final(self)@ == (
            ConfigView {
                state: state_code(AmmState::Initialized),
                seed,
                authority: authority@,
                mint_x: mint_x@,
                mint_y: mint_y@,
                fee: old(self)@.fee,
                config_bump: old(self)@.config_bump,
            })),
    {
        let state_result = self.set_state(AmmState::Initialized.code());
        match state_result {
            Ok(()) => (),
            Err(e) => {
                return Err(e);
            },
        }
        self.set_seed(seed);
        self.set_authority(authority);
        self.set_mint_x(mint_x);
        self.set_mint_y(mint_y);
        let fee_result = self.set_fee(fee);
        match fee_result {
            Ok(()) => (),
            Err(e) => {
                return Err(e);
            },
        }
        self.set_config_bump(config_bump);
        Ok(())
    }

    /// The administrative authority, if one is set: `None` when the
    /// stored identity is all zero bytes.
    pub fn has_authority(&self) -> (r: Option<[u8; 32]>)
        ensures
            is_zero_address(self@.authority) ==> r is None,
            !is_zero_address(self@.authority) ==> (r matches Some(a) && a@ == self@.authority),
    {
        let mut i: usize = 0;
        while i < 32
            invariant
                i <= 32,
                forall|j: int| 0 <= j < i ==> self@.authority[j] == 0,
            decreases 32 - i,
        {
            if self.authority[i] != 0 {
                return Some(self.authority);
            }
            i = i + 1;
        }
        None
    }
}

/// Append every byte of `src` to `dst`.
fn push_slice(dst: &mut Vec<u8>, src: &[u8])
    ensures
        final(dst)@ == old(dst)@ + src@,
{
    let mut i: usize = 0;
    while i < src.len()
        invariant
            i <= src@.len(),
            dst@ == old(dst)@ + src@.subrange(0, i as int),
        decreases src@.len() - i,
    {
        let b = src[i];
        dst.push(b);
        proof {
            assert(old(dst)@ + src@.subrange(0, i as int) + seq![src@[i as int]] =~= old(dst)@
                + src@.subrange(0, i as int + 1));
        }
        i = i + 1;
    }
    proof {
        assert(src@.subrange(0, src@.len() as int) =~= src@);
    }
}

} // verus!
