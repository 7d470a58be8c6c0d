use vstd::prelude::*;
use crate::curve::{
    curve_out, quote_spec, ConstantProduct, CurveError, LiquidityPair, SwapResult,
};
use crate::errors::{AmmError, TransferError};
use crate::state::Config;

verus! {

/// The accounts one swap reads and moves tokens between: the pool's record, its two vaults,
/// the trader's two token accounts and the supply of pool shares.
#[derive(Debug, Clone, Copy)]
pub struct Swap {
    pub config: Config,
    pub vault_x: u64,
    pub vault_y: u64,
    pub user_x: u64,
    pub user_y: u64,
    pub lp_supply: u64,
}

/// Moves `amount` from balance `from` to balance `to`: the new pair, or why not.
pub open spec fn move_spec(from: u64, to: u64, amount: u64) -> Result<(u64, u64), TransferError> {
    if from < amount {
        Err(TransferError::InsufficientFunds)
    } else if to + amount > u64::MAX {
        Err(TransferError::Overflow)
    } else {
        Ok(((from - amount) as u64, (to + amount) as u64))
    }
}

/// The trader pays `amount` of side X (or Y) into its vault, signed by the trader.
pub open spec fn deposit_spec(s: Swap, is_x: bool, amount: u64) -> Result<Swap, AmmError> {
    if is_x {
        match move_spec(s.user_x, s.vault_x, amount) {
            Ok((u, v)) => Ok(Swap { user_x: u, vault_x: v, ..s }),
            Err(e) => Err(AmmError::Transfer(e)),
        }
    } else {
        match move_spec(s.user_y, s.vault_y, amount) {
            Ok((u, v)) => Ok(Swap { user_y: u, vault_y: v, ..s }),
            Err(e) => Err(AmmError::Transfer(e)),
        }
    }
}

/// The vault of side X (or Y) pays `amount` to the trader, signed by the pool's authority.
pub open spec fn withdraw_spec(s: Swap, is_x: bool, amount: u64) -> Result<Swap, AmmError> {
    if is_x {
        match move_spec(s.vault_x, s.user_x, amount) {
            Ok((v, u)) => Ok(Swap { user_x: u, vault_x: v, ..s }),
            Err(e) => Err(AmmError::Transfer(e)),
        }
    } else {
        match move_spec(s.vault_y, s.user_y, amount) {
            Ok((v, u)) => Ok(Swap { user_y: u, vault_y: v, ..s }),
            Err(e) => Err(AmmError::Transfer(e)),
        }
    }
}

/// The reserves as (paid-in side, paid-out side).
pub open spec fn sides(s: Swap, is_x: bool) -> (u64, u64) {
    if is_x {
        (s.vault_x, s.vault_y)
    } else {
        (s.vault_y, s.vault_x)
    }
}

/// The accounts after a swap, or the error it fails with.
pub open spec fn swap_spec(s: Swap, is_x: bool, amount_in: u64, min_amount_out: u64) -> Result<
    Swap,
    AmmError,
> {
    if s.config.locked {
        Err(AmmError::PoolLocked)
    } else if amount_in == 0 {
        Err(AmmError::InvalidAmount)
    } else {
        match quote_spec(sides(s, is_x).0, sides(s, is_x).1, s.config.fee, amount_in, min_amount_out) {
            Err(e) => Err(AmmError::Curve(e)),
            Ok(q) => if q.deposit == 0 || q.withdraw == 0 {
                Err(AmmError::InvalidAmount)
            } else {
                match deposit_spec(s, is_x, q.deposit) {
                    Err(e) => Err(e),
                    Ok(s1) => withdraw_spec(s1, !is_x, q.withdraw),
                }
            },
        }
    }
}

fn move_balance(from: u64, to: u64, amount: u64) -> (r: Result<(u64, u64), TransferError>)
    ensures
        r == move_spec(from, to, amount),
{
    if from < amount {
        Err(TransferError::InsufficientFunds)
    } else if amount > u64::MAX - to {
        Err(TransferError::Overflow)
    } else {
        Ok((from - amount, to + amount))
    }
}

impl Swap {
    pub open spec fn wf(&self) -> bool {
        self.config.wf()
    }

    /// Executes a trade of `amount_in` on side X (`is_x`) or Y, paying out at least
    /// `min_amount_out` of the other side; on any failure no balance changes.
    pub fn swap(&mut self, is_x: bool, amount_in: u64, min_amount_out: u64) -> (r: Result<
        SwapResult,
        AmmError,
    >)
        requires
            old(self).wf(),
        ensures
            match swap_spec(*old(self), is_x, amount_in, min_amount_out) {
                Ok(n) => r is Ok && *final(self) == n,
                Err(e) => r == Err::<SwapResult, AmmError>(e) && *final(self) == *old(self),
            },
            r matches Ok(q) ==> quote_spec(
                sides(*old(self), is_x).0,
                sides(*old(self), is_x).1,
                old(self).config.fee,
                amount_in,
                min_amount_out,
            ) == Ok::<SwapResult, CurveError>(q),
            final(self).wf(),
            r is Err ==> *final(self) == *old(self),
            old(self).config.locked ==> r == Err::<SwapResult, AmmError>(AmmError::PoolLocked),
            !old(self).config.locked && amount_in == 0 ==> r == Err::<SwapResult, AmmError>(
                AmmError::InvalidAmount,
            ),
            !old(self).config.locked && amount_in > 0 && (sides(*old(self), is_x).0 == 0 || sides(
                *old(self),
                is_x,
            ).1 == 0) ==> r == Err::<SwapResult, AmmError>(AmmError::Curve(CurveError::EmptyPool)),
            ({
                let (r_in, r_out) = sides(*old(self), is_x);
                !old(self).config.locked && amount_in > 0 && r_in > 0 && r_out > 0 && r_in
                    + amount_in <= u64::MAX && curve_out(
                    r_in as int,
                    r_out as int,
                    amount_in as int,
                    old(self).config.fee as int,
                ) < r_out && min_amount_out > curve_out(
                    r_in as int,
                    r_out as int,
                    amount_in as int,
                    old(self).config.fee as int,
                ) ==> r == Err::<SwapResult, AmmError>(AmmError::Curve(CurveError::SlippageExceeded))
            }),
    {
        if self.config.locked {
            return Err(AmmError::PoolLocked);
        }
        if amount_in == 0 {
            return Err(AmmError::InvalidAmount);
        }
        let curve = ConstantProduct::init(self.vault_x, self.vault_y, self.lp_supply, self.config.fee);
        let p = if is_x {
            LiquidityPair::X
        } else {
            LiquidityPair::Y
        };
        let q: SwapResult = match curve.swap(p, amount_in, min_amount_out) {
            Ok(q) => q,
            Err(e) => return Err(AmmError::Curve(e)),
        };
        if q.deposit == 0 || q.withdraw == 0 {
            return Err(AmmError::InvalidAmount);
        }
        let saved: Swap = *self;
        match self.deposite_token(is_x, q.deposit) {
            Ok(()) => {},
            Err(e) => return Err(e),
        }
        match self.withdraw_token(!is_x, q.withdraw) {
            Ok(()) => Ok(q),
            Err(e) => {
                *self = saved;
                Err(e)
            },
        }
    }

    /// Moves `amount` from the trader's account to the vault of side X (`is_x`) or Y.
    pub fn deposite_token(&mut self, is_x: bool, amount: u64) -> (r: Result<(), AmmError>)
        ensures
            match deposit_spec(*old(self), is_x, amount) {
                Ok(n) => r is Ok && *final(self) == n,
                Err(e) => r == Err::<(), AmmError>(e) && *final(self) == *old(self),
            },
    {
        if is_x {
            match move_balance(self.user_x, self.vault_x, amount) {
                Ok((u, v)) => {
                    self.user_x = u;
                    self.vault_x = v;
                    Ok(())
                },
                Err(e) => Err(AmmError::Transfer(e)),
            }
        } else {
            match move_balance(self.user_y, self.vault_y, amount) {
                Ok((u, v)) => {
                    self.user_y = u;
                    self.vault_y = v;
                    Ok(())
                },
                Err(e) => Err(AmmError::Transfer(e)),
            }
        }
    }

    /// Moves `amount` from the vault of side X (`is_x`) or Y to the trader's account.
    pub fn withdraw_token(&mut self, is_x: bool, amount: u64) -> (r: Result<(), AmmError>)
        ensures
            match withdraw_spec(*old(self), is_x, amount) {
                Ok(n) => r is Ok && *final(self) == n,
                Err(e) => r == Err::<(), AmmError>(e) && *final(self) == *old(self),
            },
    {
        if is_x {
            match move_balance(self.vault_x, self.user_x, amount) {
                Ok((v, u)) => {
                    self.user_x = u;
                    self.vault_x = v;
                    Ok(())
                },
                Err(e) => Err(AmmError::Transfer(e)),
            }
        } else {
            match move_balance(self.vault_y, self.user_y, amount) {
                Ok((v, u)) => {
                    self.user_y = u;
                    self.vault_y = v;
                    Ok(())
                },
                Err(e) => Err(AmmError::Transfer(e)),
            }
        }
    }
}

/// The instruction entry point: a swap on the accounts in `ctx`.
pub fn swap(ctx: &mut Swap, is_x: bool, amount_in: u64, min_amount_out: u64) -> (r: Result<
    SwapResult,
    AmmError,
>)
    requires
        old(ctx).wf(),
    ensures
        match swap_spec(*old(ctx), is_x, amount_in, min_amount_out) {
            Ok(n) => r is Ok && *final(ctx) == n,
            Err(e) => r == Err::<SwapResult, AmmError>(e) && *final(ctx) == *old(ctx),
        },
{
    ctx.swap(is_x, amount_in, min_amount_out)
}

} // verus!
