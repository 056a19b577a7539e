//! The liquidity subsystem: constant-product pools with a permille swap
//! fee and proportional share accounting.

use vstd::prelude::*;
use crate::errors::{TribeError, TribeResult};
use crate::ledger::{bal, BalanceBook};

verus! {

use vstd::string::{StringExecFns, StrSliceExecFns};

/// The pool operations.
#[derive(Debug)]
pub enum LiquidityOperationType {
    Add,
    Remove,
    ClaimFees,
}

/// A two-token constant-product pool.
#[derive(Debug)]
pub struct LiquidityPool {
    pub token_a: String,
    pub token_b: String,
    pub reserve_a: u64,
    pub reserve_b: u64,
    pub total_shares: u64,
    pub shares: BalanceBook,
    pub fee_permille: u64,
    pub is_active: bool,
}

impl LiquidityPool {
    /// The share book is well formed and the fee leaves something to
    /// trade.
    pub open spec fn wf(&self) -> bool {
        self.shares.wf() && self.fee_permille < 1000
    }

    /// Opens a pool over two distinct, named tokens with a sub-unit fee.
    pub fn new(token_a: String, token_b: String, fee_permille: u64) -> (r: TribeResult<
        LiquidityPool,
    >)
        ensures
            r is Ok <==> (token_a@.len() > 0 && token_b@.len() > 0 && token_a@ != token_b@
                && fee_permille < 1000),
            r matches Ok(p) ==> {
                &&& p.wf()
                &&& p.token_a == token_a
                &&& p.token_b == token_b
                &&& p.reserve_a == 0
                &&& p.reserve_b == 0
                &&& p.total_shares == 0
                &&& p.fee_permille == fee_permille
                &&& p.is_active
            },
    {
        if token_a.as_str().is_empty() || token_b.as_str().is_empty() {
            return Err(TribeError::InvalidOperation(String::from_str(
                "token identifiers cannot be empty",
            )));
        }
        if token_a == token_b {
            return Err(TribeError::InvalidOperation(String::from_str(
                "pool tokens must differ",
            )));
        }
        if fee_permille >= 1000 {
            return Err(TribeError::InvalidOperation(String::from_str(
                "fee must stay below one",
            )));
        }
        Ok(
            LiquidityPool {
                token_a,
                token_b,
                reserve_a: 0,
                reserve_b: 0,
                total_shares: 0,
                shares: BalanceBook::new(),
                fee_permille,
                is_active: true,
            },
        )
    }

    /// Adds liquidity: the first provider sets the price and receives
    /// `amount_a` shares; later providers must deposit at the pool ratio
    /// and receive shares in proportion.
    pub fn add_liquidity(&mut self, provider: &str, amount_a: u64, amount_b: u64) -> (r:
        TribeResult<u64>)
        requires
            old(self).wf(),
            old(self).reserve_a + amount_a <= u64::MAX,
            old(self).reserve_b + amount_b <= u64::MAX,
            bal(old(self).shares.view(), provider@) + amount_a <= u64::MAX,
        ensures
            final(self).wf(),
            r is Err ==> *final(self) == *old(self),
            old(self).total_shares == 0 ==> (r is Ok <==> (old(self).is_active && amount_a > 0
                && amount_b > 0)),
            match r {
                Ok(minted) => {
                    &&& final(self).reserve_a == old(self).reserve_a + amount_a
                    &&& final(self).reserve_b == old(self).reserve_b + amount_b
                    &&& (old(self).total_shares == 0 ==> {
                        &&& minted == amount_a
                        &&& final(self).total_shares == amount_a
                        &&& final(self).shares.view() == old(self).shares.view().insert(
                            provider@,
                            (bal(old(self).shares.view(), provider@) + amount_a) as u64,
                        )
                    })
                },
                Err(_) => true,
            },
    {
        if !self.is_active {
            return Err(TribeError::InvalidOperation(String::from_str("pool is closed")));
        }
        if amount_a == 0 || amount_b == 0 {
            return Err(TribeError::InvalidOperation(String::from_str(
                "deposits must be positive",
            )));
        }
        if self.total_shares == 0 {
            self.reserve_a = self.reserve_a + amount_a;
            self.reserve_b = self.reserve_b + amount_b;
            self.total_shares = amount_a;
            self.shares.credit(provider, amount_a);
            return Ok(amount_a);
        }
        // Later deposits must keep the price: amount_b / amount_a equals
        // reserve_b / reserve_a, cross-multiplied to avoid division.
        proof {
            vstd::arithmetic::mul::lemma_mul_upper_bound(
                amount_a as int,
                u64::MAX as int,
                self.reserve_b as int,
                u64::MAX as int,
            );
            vstd::arithmetic::mul::lemma_mul_upper_bound(
                amount_b as int,
                u64::MAX as int,
                self.reserve_a as int,
                u64::MAX as int,
            );
            vstd::arithmetic::mul::lemma_mul_nonnegative(
                amount_a as int,
                self.reserve_b as int,
            );
            vstd::arithmetic::mul::lemma_mul_nonnegative(
                amount_b as int,
                self.reserve_a as int,
            );
        }
        let lhs = (amount_a as u128) * (self.reserve_b as u128);
        let rhs = (amount_b as u128) * (self.reserve_a as u128);
        if lhs != rhs {
            return Err(TribeError::InvalidOperation(String::from_str(
                "deposit must match the pool ratio",
            )));
        }
        if self.reserve_a == 0 {
            return Err(TribeError::InvalidOperation(String::from_str("pool reserves drained")));
        }
        proof {
            vstd::arithmetic::mul::lemma_mul_upper_bound(
                amount_a as int,
                u64::MAX as int,
                self.total_shares as int,
                u64::MAX as int,
            );
            vstd::arithmetic::mul::lemma_mul_nonnegative(
                amount_a as int,
                self.total_shares as int,
            );
            vstd::arithmetic::div_mod::lemma_div_is_ordered(
                0,
                (amount_a as int) * (self.total_shares as int),
                self.reserve_a as int,
            );
            vstd::arithmetic::div_mod::lemma_div_is_ordered_by_denominator(
                (amount_a as int) * (self.total_shares as int),
                1,
                self.reserve_a as int,
            );
        }
        let minted_wide = (amount_a as u128) * (self.total_shares as u128)
            / (self.reserve_a as u128);
        let minted: u64 = if minted_wide > 0xFFFF_FFFF_FFFF_FFFF {
            0xFFFF_FFFF_FFFF_FFFF
        } else {
            minted_wide as u64
        };
        let new_total = match self.total_shares.checked_add(minted) {
            Some(t) => t,
            None => {
                return Err(TribeError::InvalidOperation(String::from_str("share overflow")));
            },
        };
        let current = self.shares.get(provider);
        match current.checked_add(minted) {
            Some(_) => {},
            None => {
                return Err(TribeError::InvalidOperation(String::from_str("share overflow")));
            },
        }
        self.reserve_a = self.reserve_a + amount_a;
        self.reserve_b = self.reserve_b + amount_b;
        self.total_shares = new_total;
        self.shares.credit(provider, minted);
        Ok(minted)
    }

    /// Removes liquidity: burns shares and pays out both reserves in
    /// proportion.
    pub fn remove_liquidity(&mut self, provider: &str, share_amount: u64) -> (r: TribeResult<
        (u64, u64),
    >)
        requires
            old(self).wf(),
        ensures
            final(self).wf(),
            r is Err ==> *final(self) == *old(self),
            r is Ok <==> (share_amount > 0 && share_amount <= bal(
                old(self).shares.view(),
                provider@,
            ) && share_amount <= old(self).total_shares && old(self).total_shares > 0),
            r matches Ok(paid) ==> {
                &&& paid.0 as int == (old(self).reserve_a as int) * (share_amount as int) / (old(
                    self,
                ).total_shares as int)
                &&& paid.1 as int == (old(self).reserve_b as int) * (share_amount as int) / (old(
                    self,
                ).total_shares as int)
                &&& final(self).reserve_a == old(self).reserve_a - paid.0
                &&& final(self).reserve_b == old(self).reserve_b - paid.1
                &&& final(self).total_shares == old(self).total_shares - share_amount
            },
    {
        if share_amount == 0 {
            return Err(TribeError::InvalidOperation(String::from_str(
                "share amount must be positive",
            )));
        }
        let held = self.shares.get(provider);
        if share_amount > held {
            return Err(TribeError::InvalidOperation(String::from_str(
                "insufficient shares",
            )));
        }
        if self.total_shares == 0 || share_amount > self.total_shares {
            return Err(TribeError::InvalidOperation(String::from_str(
                "pool has too few shares",
            )));
        }
        proof {
            vstd::arithmetic::mul::lemma_mul_upper_bound(
                self.reserve_a as int,
                u64::MAX as int,
                share_amount as int,
                u64::MAX as int,
            );
            vstd::arithmetic::mul::lemma_mul_upper_bound(
                self.reserve_b as int,
                u64::MAX as int,
                share_amount as int,
                u64::MAX as int,
            );
            vstd::arithmetic::mul::lemma_mul_nonnegative(
                self.reserve_a as int,
                share_amount as int,
            );
            vstd::arithmetic::mul::lemma_mul_nonnegative(
                self.reserve_b as int,
                share_amount as int,
            );
            vstd::arithmetic::mul::lemma_mul_inequality(
                share_amount as int,
                self.total_shares as int,
                self.reserve_a as int,
            );
            vstd::arithmetic::mul::lemma_mul_inequality(
                share_amount as int,
                self.total_shares as int,
                self.reserve_b as int,
            );
            vstd::arithmetic::mul::lemma_mul_is_commutative(
                self.reserve_a as int,
                share_amount as int,
            );
            vstd::arithmetic::mul::lemma_mul_is_commutative(
                self.reserve_b as int,
                share_amount as int,
            );
            vstd::arithmetic::div_mod::lemma_div_is_ordered(
                (self.reserve_a as int) * (share_amount as int),
                (self.total_shares as int) * (self.reserve_a as int),
                self.total_shares as int,
            );
            vstd::arithmetic::div_mod::lemma_div_is_ordered(
                (self.reserve_b as int) * (share_amount as int),
                (self.total_shares as int) * (self.reserve_b as int),
                self.total_shares as int,
            );
            vstd::arithmetic::div_mod::lemma_div_multiples_vanish(
                self.reserve_a as int,
                self.total_shares as int,
            );
            vstd::arithmetic::div_mod::lemma_div_multiples_vanish(
                self.reserve_b as int,
                self.total_shares as int,
            );
            vstd::arithmetic::div_mod::lemma_div_pos_is_pos(
                (self.reserve_a as int) * (share_amount as int),
                self.total_shares as int,
            );
            vstd::arithmetic::div_mod::lemma_div_pos_is_pos(
                (self.reserve_b as int) * (share_amount as int),
                self.total_shares as int,
            );
        }
        let amount_a = ((self.reserve_a as u128) * (share_amount as u128)
            / (self.total_shares as u128)) as u64;
        let amount_b = ((self.reserve_b as u128) * (share_amount as u128)
            / (self.total_shares as u128)) as u64;
        self.shares.debit(provider, share_amount);
        self.total_shares = self.total_shares - share_amount;
        self.reserve_a = self.reserve_a - amount_a;
        self.reserve_b = self.reserve_b - amount_b;
        Ok((amount_a, amount_b))
    }

    /// Swaps token A for token B at the constant-product price after the
    /// permille fee.
    pub fn swap_a_for_b(&mut self, amount_in: u64) -> (r: TribeResult<u64>)
        requires
            old(self).wf(),
            old(self).reserve_a + amount_in <= u64::MAX,
        ensures
            final(self).wf(),
            r is Err ==> *final(self) == *old(self),
            r is Ok <==> (old(self).is_active && amount_in > 0 && old(self).reserve_a > 0 && old(
                self,
            ).reserve_b > 0),
            r matches Ok(out) ==> {
                let in_eff = (amount_in as int) * (1000 - old(self).fee_permille) / 1000;
                &&& out as int == (old(self).reserve_b as int) * in_eff / (old(self).reserve_a
                    as int + in_eff)
                &&& out <= old(self).reserve_b
                &&& final(self).reserve_a == old(self).reserve_a + amount_in
                &&& final(self).reserve_b == old(self).reserve_b - out
                &&& final(self).total_shares == old(self).total_shares
            },
    {
        if !self.is_active {
            return Err(TribeError::InvalidOperation(String::from_str("pool is closed")));
        }
        if amount_in == 0 {
            return Err(TribeError::InvalidOperation(String::from_str(
                "swap amount must be positive",
            )));
        }
        if self.reserve_a == 0 || self.reserve_b == 0 {
            return Err(TribeError::InvalidOperation(String::from_str("pool reserves drained")));
        }
        proof {
            vstd::arithmetic::mul::lemma_mul_upper_bound(
                amount_in as int,
                u64::MAX as int,
                (1000 - self.fee_permille) as int,
                1000,
            );
            vstd::arithmetic::mul::lemma_mul_nonnegative(
                amount_in as int,
                (1000 - self.fee_permille) as int,
            );
            vstd::arithmetic::div_mod::lemma_div_is_ordered(
                0,
                (amount_in as int) * ((1000 - self.fee_permille) as int),
                1000,
            );
            vstd::arithmetic::div_mod::lemma_div_is_ordered(
                (amount_in as int) * ((1000 - self.fee_permille) as int),
                (u64::MAX as int) * 1000,
                1000,
            );
        }
        let in_eff = (amount_in as u128) * ((1000 - self.fee_permille) as u128) / 1000;
        let denom = (self.reserve_a as u128) + in_eff;
        proof {
            vstd::arithmetic::mul::lemma_mul_upper_bound(
                self.reserve_b as int,
                u64::MAX as int,
                in_eff as int,
                u64::MAX as int,
            );
            vstd::arithmetic::mul::lemma_mul_nonnegative(self.reserve_b as int, in_eff as int);
        }
        let out_wide = if denom == 0 {
            0
        } else {
            (self.reserve_b as u128) * in_eff / denom
        };
        proof {
            if denom != 0 {
                vstd::arithmetic::mul::lemma_mul_inequality(
                    in_eff as int,
                    denom as int,
                    self.reserve_b as int,
                );
                vstd::arithmetic::mul::lemma_mul_is_commutative(
                    self.reserve_b as int,
                    in_eff as int,
                );
                vstd::arithmetic::div_mod::lemma_div_is_ordered(
                    (self.reserve_b as int) * (in_eff as int),
                    (denom as int) * (self.reserve_b as int),
                    denom as int,
                );
                vstd::arithmetic::div_mod::lemma_div_multiples_vanish(
                    self.reserve_b as int,
                    denom as int,
                );
            }
        }
        let out = out_wide as u64;
        self.reserve_a = self.reserve_a + amount_in;
        self.reserve_b = self.reserve_b - out;
        Ok(out)
    }

    /// The share position of one provider.
    pub fn share_of(&self, provider: &str) -> (r: u64)
        requires
            self.wf(),
        ensures
            r == bal(self.shares.view(), provider@),
    {
        self.shares.get(provider)
    }

    /// Closes the pool to new operations.
    pub fn deactivate(&mut self)
        ensures
            !final(self).is_active,
            final(self).reserve_a == old(self).reserve_a,
            final(self).reserve_b == old(self).reserve_b,
            final(self).total_shares == old(self).total_shares,
    {
        self.is_active = false;
    }
}

} // verus!
