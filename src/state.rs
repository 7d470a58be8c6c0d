use vstd::prelude::*;
use crate::errors::AmmError;

verus! {

/// A 32-byte account identity.
pub type Pubkey = [u8; 32];

/// The persistent record of one pool.
#[derive(Debug, Clone, Copy, PartialEq, Eq)]
pub struct Config {
    pub seed: u64,
    pub authority: Option<Pubkey>,
    pub mint_x: Pubkey,
    pub mint_y: Pubkey,
    pub fee: u16,
    pub locked: bool,
    pub config_bump: u8,
    pub lp_bump: u8,
}

impl Config {
    /// The fee never exceeds one whole.
    pub open spec fn wf(&self) -> bool {
        self.fee <= 10000
    }
}

/// Creates the record of a new, unlocked pool; a fee above 10000 basis points is refused.
pub fn initialize(
    seed: u64,
    fee: u16,
    authority: Option<Pubkey>,
    mint_x: Pubkey,
    mint_y: Pubkey,
    config_bump: u8,
    lp_bump: u8,
) -> (r: Result<Config, AmmError>)
    ensures
        fee > 10000 <==> r == Err::<Config, AmmError>(AmmError::InvalidFee),
        fee <= 10000 ==> r == Ok::<Config, AmmError>(
            (Config { seed, authority, mint_x, mint_y, fee, locked: false, config_bump, lp_bump }),
        ),
{
    if fee > 10000 {
        return Err(AmmError::InvalidFee);
    }
    Ok(Config { seed, authority, mint_x, mint_y, fee, locked: false, config_bump, lp_bump })
}

} // verus!
