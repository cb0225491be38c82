use vstd::prelude::*;
use crate::error::LedgerError;

verus! {

/// The 32-byte identity of an account holder or of a record, as its first
/// and last sixteen bytes read big-endian.
#[derive(Clone, Copy, Debug, PartialEq, Eq, Structural)]
pub struct Pubkey {
    pub high: u128,
    pub low: u128,
}

/// A holder's share account in one pool.
#[derive(Clone, Copy, Debug, PartialEq, Eq, Structural)]
pub struct Stake {
    /// The custody account of the pool this record belongs to.
    pub fund_wallet: Pubkey,
    pub num_shares: u64,
    /// The pool's accrual rate when this holder last settled.
    pub total_deposits_per_share_snapshot: u64,
}

/// The aggregate state of one pool.
#[derive(Clone, Copy, Debug, PartialEq, Eq, Structural)]
pub struct WalletState {
    pub creator: Pubkey,
    /// Value detected but not yet attributed to any share.
    pub dust: u64,
    /// The number of shares in the pool, fixed at creation.
    pub total_shares: u64,
    /// Cumulative value accrued per share since the pool was created.
    pub total_deposits_per_share: u64,
    /// Everything ever detected as deposited.
    pub total_deposits: u128,
    /// The custody balance, net of the float and the dust, at the last settlement.
    pub last_snapshot: u64,
    /// The custody balance at creation, a float never distributed.
    pub starting_balance: u64,
    pub fund_wallet_bump: u8,
}

impl Stake {
    /// The two records after `shares` are moved from `self` to `other`: at most
    /// what `self` holds moves; refused where `other` would overflow.
    pub open spec fn transferred(self, other: Stake, shares: u64) -> Result<(Stake, Stake), LedgerError> {
        let moved = if shares < self.num_shares { shares } else { self.num_shares };
        if other.num_shares + moved > u64::MAX {
            Err(LedgerError::ArithmeticOverflow)
        } else {
            Ok(
                (
                    Stake { num_shares: (self.num_shares - moved) as u64, ..self },
                    Stake { num_shares: (other.num_shares + moved) as u64, ..other },
                ),
            )
        }
    }

    pub fn initialize(&mut self, num_shares: u64, snaphshot: u64)
        ensures
            *final(self) == (Stake {
                num_shares,
                total_deposits_per_share_snapshot: snaphshot,
                ..*old(self)
            }),
    {
        self.num_shares = num_shares;
        self.total_deposits_per_share_snapshot = snaphshot;
    }

    /// Moves up to `shares` shares to `other`; the shares of the two together
    /// are kept. Refused, with nothing changed, where `other` would overflow.
    pub fn transfer(&mut self, other: &mut Stake, shares: u64) -> (r: Result<(), LedgerError>)
        ensures
            match old(self).transferred(*old(other), shares) {
                Ok((s, o)) => r is Ok && *final(self) == s && *final(other) == o,
                Err(e) => r == Err::<(), LedgerError>(e) && *final(self) == *old(self) && *final(other) == *old(other),
            },
            final(self).num_shares + final(other).num_shares == old(self).num_shares + old(other).num_shares,
    {
        let moved = if shares < self.num_shares { shares } else { self.num_shares };
        match other.num_shares.checked_add(moved) {
            None => Err(LedgerError::ArithmeticOverflow),
            Some(n) => {
                other.num_shares = n;
                self.num_shares = self.num_shares - moved;
                Ok(())
            },
        }
    }
}

impl WalletState {
    /// The pool's invariant: shares exist and the dust is below one share's worth.
    pub open spec fn wf(self) -> bool {
        self.total_shares > 0 && self.dust < self.total_shares
    }

    /// Value in a custody balance of `balance` that has not been observed yet.
    pub open spec fn new_deposits(self, balance: u64) -> int {
        let seen = self.last_snapshot + self.dust + self.starting_balance;
        if balance > seen { balance - seen } else { 0 }
    }

    /// The accrual rate once a custody balance of `balance` has been observed:
    /// the unattributed value (old dust plus new deposits) in whole shares.
    pub open spec fn detected_rate(self, balance: u64) -> int {
        self.total_deposits_per_share + (self.dust + self.new_deposits(balance)) / (
        self.total_shares as int)
    }

    /// The dust once a custody balance of `balance` has been observed.
    pub open spec fn detected_dust(self, balance: u64) -> int {
        (self.dust + self.new_deposits(balance)) % (self.total_shares as int)
    }

    /// Whether observing a custody balance of `balance` keeps every counter in range.
    pub open spec fn detection_fits(self, balance: u64) -> bool {
        &&& self.total_deposits + self.new_deposits(balance) <= u128::MAX
        &&& self.detected_rate(balance) <= u64::MAX
    }

    /// The pool after observing a custody balance of `balance`.
    pub open spec fn detected(self, balance: u64) -> WalletState {
        WalletState {
            dust: self.detected_dust(balance) as u64,
            total_deposits_per_share: self.detected_rate(balance) as u64,
            total_deposits: (self.total_deposits + self.new_deposits(balance)) as u128,
            ..self
        }
    }

    pub fn initialize(&mut self, creator: Pubkey, total_shares: u64, starting_balance: u64, bump: u8)
        ensures
            *final(self) == (WalletState {
                creator,
                dust: 0,
                total_shares,
                total_deposits_per_share: 0,
                total_deposits: 0,
                last_snapshot: 0,
                starting_balance,
                fund_wallet_bump: bump,
            }),
    {
        self.creator = creator;
        self.dust = 0;
        self.total_shares = total_shares;
        self.total_deposits_per_share = 0;
        self.total_deposits = 0;
        self.last_snapshot = 0;
        self.starting_balance = starting_balance;
        self.fund_wallet_bump = bump;
    }

    /// Folds the value that arrived in custody since the last observation into
    /// the accrual rate; the remainder of the division is carried as dust.
    /// Refused, with nothing changed, where a counter would overflow.
    pub fn update_internal_accounting(&mut self, wallet_balance: u64) -> (r: Result<(), LedgerError>)
        requires
            old(self).wf(),
        ensures
            r is Ok <==> old(self).detection_fits(wallet_balance),
            r is Ok ==> *final(self) == old(self).detected(wallet_balance),
            r is Err ==> r == Err::<(), LedgerError>(LedgerError::ArithmeticOverflow) && *final(self)
                == *old(self),
            final(self).wf(),
            final(self).total_deposits_per_share >= old(self).total_deposits_per_share,
    {
        let ghost w = *self;
        let seen: u128 = self.last_snapshot as u128 + self.dust as u128 + self.starting_balance as u128;
        let new_deposits: u64 = if wallet_balance as u128 > seen {
            (wallet_balance as u128 - seen) as u64
        } else {
            0
        };
        if new_deposits == 0 {
            proof {
                lemma_split_carry(w.dust as int, 0, w.total_shares as int);
            }
            return Ok(());
        }
        if self.total_deposits > u128::MAX - new_deposits as u128 {
            return Err(LedgerError::ArithmeticOverflow);
        }
        let ts = self.total_shares;
        let remainder = new_deposits % ts;
        let mut deposits_per_share = new_deposits / ts;
        let mut dust = self.dust;
        // dust + remainder, renormalized below one share, without overflow
        if remainder >= ts - dust {
            deposits_per_share = deposits_per_share + 1;
            dust = remainder - (ts - dust);
        } else {
            dust = dust + remainder;
        }
        proof {
            lemma_split_carry(w.dust as int, new_deposits as int, ts as int);
        }
        if self.total_deposits_per_share > u64::MAX - deposits_per_share {
            return Err(LedgerError::ArithmeticOverflow);
        }
        self.total_deposits = self.total_deposits + new_deposits as u128;
        self.dust = dust;
        self.total_deposits_per_share = self.total_deposits_per_share + deposits_per_share;
        Ok(())
    }
    /// What a holder with record `state` may withdraw at the current rate; a
    /// snapshot above the rate gives nothing.
    pub open spec fn withdrawable(self, state: Stake) -> int {
        let rate = self.total_deposits_per_share;
        let snap = state.total_deposits_per_share_snapshot;
        (if rate > snap { rate - snap } else { 0int }) * state.num_shares
    }

    /// Settling `state` against the pool: the holder's record, the custody
    /// balance and the holder's balance afterwards, or why it is refused.
    pub open spec fn settled(self, state: Stake, fund_wallet: u64, recipient: u64) -> Result<
        (Stake, u64, u64),
        LedgerError,
    > {
        let w = self.withdrawable(state);
        if w > u64::MAX {
            Err(LedgerError::ArithmeticOverflow)
        } else if w > fund_wallet {
            Err(LedgerError::PaymentFailed)
        } else if recipient + w > u64::MAX {
            Err(LedgerError::ArithmeticOverflow)
        } else {
            Ok(
                (
                    Stake { total_deposits_per_share_snapshot: self.total_deposits_per_share, ..state },
                    (fund_wallet - w) as u64,
                    (recipient + w) as u64,
                ),
            )
        }
    }

    /// Whether a custody balance of `balance` still holds the float and the dust.
    pub open spec fn anchor_fits(self, balance: u64) -> bool {
        balance >= self.dust + self.starting_balance
    }

    /// The pool with its observation point moved to a custody balance of `balance`.
    pub open spec fn anchored(self, balance: u64) -> WalletState {
        WalletState { last_snapshot: (balance - self.dust - self.starting_balance) as u64, ..self }
    }

    /// Pays the holder of `state` what accrued to its shares since it last
    /// settled, moving it from the custody balance `fund_wallet` to the balance
    /// `recipient`, and advances the holder's snapshot to the current rate.
    /// Refused, with nothing changed, where the payout does not fit or custody
    /// cannot cover it.
    pub fn claim(&mut self, state: &mut Stake, fund_wallet: &mut u64, recipient: &mut u64) -> (r:
        Result<(), LedgerError>)
        ensures
            *final(self) == *old(self),
            match old(self).settled(*old(state), *old(fund_wallet), *old(recipient)) {
                Ok((s, f, p)) => r is Ok && *final(state) == s && *final(fund_wallet) == f
                    && *final(recipient) == p,
                Err(e) => r == Err::<(), LedgerError>(e) && *final(state) == *old(state) && *final(fund_wallet) == *old(fund_wallet) && *final(recipient) == *old(recipient),
            },
    {
        let rate = self.total_deposits_per_share;
        let per_share = rate.saturating_sub(state.total_deposits_per_share_snapshot);
        let withdrawable_amount = match per_share.checked_mul(state.num_shares) {
            None => return Err(LedgerError::ArithmeticOverflow),
            Some(w) => w,
        };
        if withdrawable_amount > 0 {
            if withdrawable_amount > *fund_wallet {
                return Err(LedgerError::PaymentFailed);
            }
            if *recipient > u64::MAX - withdrawable_amount {
                return Err(LedgerError::ArithmeticOverflow);
            }
            *fund_wallet = *fund_wallet - withdrawable_amount;
            *recipient = *recipient + withdrawable_amount;
        }
        state.total_deposits_per_share_snapshot = rate;
        Ok(())
    }
}

/// Carrying the remainder of `n / t` into a dust `d < t` gives the quotient
/// and remainder of `d + n` by `t`.
pub(crate) proof fn lemma_split_carry(d: int, n: int, t: int)
    requires
        0 <= d < t,
        0 <= n,
    ensures
        n % t + d >= t ==> (d + n) / t == n / t + 1 && (d + n) % t == n % t + d - t,
        n % t + d < t ==> (d + n) / t == n / t && (d + n) % t == n % t + d,
{
    vstd::arithmetic::div_mod::lemma_fundamental_div_mod(n, t);
    vstd::arithmetic::div_mod::lemma_mod_bound(n, t);
    let q = n / t;
    let r = n % t;
    if r + d >= t {
        assert(d + n == (q + 1) * t + (r + d - t)) by (nonlinear_arith)
            requires
                n == t * q + r,
        ;
        vstd::arithmetic::div_mod::lemma_fundamental_div_mod_converse(d + n, t, q + 1, r + d - t);
    } else {
        assert(d + n == q * t + (r + d)) by (nonlinear_arith)
            requires
                n == t * q + r,
        ;
        vstd::arithmetic::div_mod::lemma_fundamental_div_mod_converse(d + n, t, q, r + d);
    }
}

} // verus!
