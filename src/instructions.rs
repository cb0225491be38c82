use vstd::prelude::*;
use crate::error::LedgerError;
use crate::ledger::{Pubkey, Stake, WalletState};

verus! {

/// The records and balances that creating a pool touches.
#[derive(Clone, Copy, Debug, PartialEq, Eq, Structural)]
pub struct CreateFund {
    /// The pool record to be filled in.
    pub wallet_state: WalletState,
    /// The custody account's balance.
    pub fund_wallet: u64,
    /// The derivation parameter of the custody account, where the host found one.
    pub fund_wallet_bump: Option<u8>,
    pub creator: Pubkey,
    /// The creator's balance, which pays for the custody account's float.
    pub creator_lamports: u64,
    /// The creator's share record to be filled in.
    pub creator_state: Stake,
    /// The minimum viable balance of a custody account.
    pub minimum_balance: u64,
}

/// The records that joining a pool touches.
#[derive(Clone, Copy, Debug, PartialEq, Eq, Structural)]
pub struct CreateStakeAccount {
    pub wallet_state: WalletState,
    pub user: Pubkey,
    /// The joining holder's share record to be filled in.
    pub user_state: Stake,
}

/// The records and balances that a share transfer touches.
#[derive(Clone, Copy, Debug, PartialEq, Eq, Structural)]
pub struct TransferShares {
    pub wallet_state: WalletState,
    /// The custody account's balance.
    pub fund_wallet: u64,
    /// The sender's balance.
    pub sender: u64,
    pub sender_state: Stake,
    pub recipient_state: Stake,
    /// The recipient's balance.
    pub recipient: u64,
}

/// The records and balances that a claim touches.
#[derive(Clone, Copy, Debug, PartialEq, Eq, Structural)]
pub struct Claim {
    pub wallet_state: WalletState,
    /// The custody account's balance.
    pub fund_wallet: u64,
    /// The claiming holder's balance.
    pub recipient: u64,
    pub recipient_state: Stake,
}

/// The outcome of creating a pool with `total_shares` shares.
pub open spec fn created(c: CreateFund, total_shares: u64) -> Result<CreateFund, LedgerError> {
    if total_shares == 0 {
        Err(LedgerError::PreconditionFailed)
    } else if c.fund_wallet_bump is None {
        Err(LedgerError::InvalidArgument)
    } else {
        let top_up: int = if c.minimum_balance > c.fund_wallet {
            c.minimum_balance - c.fund_wallet
        } else {
            0
        };
        let excess: int = if c.fund_wallet > c.minimum_balance {
            c.fund_wallet - c.minimum_balance
        } else {
            0
        };
        if top_up > c.creator_lamports {
            Err(LedgerError::InsufficientFunding)
        } else if c.creator_lamports - top_up + excess > u64::MAX {
            Err(LedgerError::ArithmeticOverflow)
        } else {
            Ok(
                CreateFund {
                    wallet_state: WalletState {
                        creator: c.creator,
                        dust: 0,
                        total_shares,
                        total_deposits_per_share: 0,
                        total_deposits: 0,
                        last_snapshot: 0,
                        starting_balance: c.minimum_balance,
                        fund_wallet_bump: c.fund_wallet_bump->0,
                    },
                    fund_wallet: c.minimum_balance,
                    creator_lamports: (c.creator_lamports - top_up + excess) as u64,
                    creator_state: Stake {
                        num_shares: total_shares,
                        total_deposits_per_share_snapshot: 0,
                        ..c.creator_state
                    },
                    ..c
                },
            )
        }
    }
}

/// The outcome of a claim.
pub open spec fn claimed(c: Claim) -> Result<Claim, LedgerError> {
    let b = c.fund_wallet;
    if b < c.wallet_state.last_snapshot {
        Err(LedgerError::BalanceInvariantViolated)
    } else if !c.wallet_state.detection_fits(b) {
        Err(LedgerError::ArithmeticOverflow)
    } else {
        let w = c.wallet_state.detected(b);
        match w.settled(c.recipient_state, b, c.recipient) {
            Err(e) => Err(e),
            Ok((s, f, p)) => if !w.anchor_fits(f) {
                Err(LedgerError::BalanceInvariantViolated)
            } else {
                Ok(Claim { wallet_state: w.anchored(f), fund_wallet: f, recipient: p, recipient_state: s })
            },
        }
    }
}

/// The outcome of a transfer of up to `num_shares` shares.
pub open spec fn transferred(t: TransferShares, num_shares: u64) -> Result<TransferShares, LedgerError> {
    let b = t.fund_wallet;
    if t.sender_state.num_shares == 0 {
        Err(LedgerError::PreconditionFailed)
    } else if b < t.wallet_state.last_snapshot {
        Err(LedgerError::BalanceInvariantViolated)
    } else if !t.wallet_state.detection_fits(b) {
        Err(LedgerError::ArithmeticOverflow)
    } else {
        let w = t.wallet_state.detected(b);
        match w.settled(t.recipient_state, b, t.recipient) {
            Err(e) => Err(e),
            Ok((rs, f1, rp)) => match w.settled(t.sender_state, f1, t.sender) {
                Err(e) => Err(e),
                Ok((ss, f2, sp)) => match ss.transferred(rs, num_shares) {
                    Err(e) => Err(e),
                    Ok((ss2, rs2)) => if !w.anchor_fits(f2) {
                        Err(LedgerError::BalanceInvariantViolated)
                    } else {
                        Ok(
                            TransferShares {
                                wallet_state: w.anchored(f2),
                                fund_wallet: f2,
                                sender: sp,
                                sender_state: ss2,
                                recipient_state: rs2,
                                recipient: rp,
                            },
                        )
                    },
                },
            },
        }
    }
}

/// Creates a pool of `total_shares` shares, all held by the creator: tops the
/// custody account up to its minimum viable balance from the creator's
/// balance, returns any excess to the creator, and records that balance as the
/// float that is never distributed.
pub fn create_fund(ctx: &mut CreateFund, total_shares: u64) -> (r: Result<(), LedgerError>)
    ensures
        match created(*old(ctx), total_shares) {
            Ok(c) => r is Ok && *final(ctx) == c,
            Err(e) => r == Err::<(), LedgerError>(e) && *final(ctx) == *old(ctx),
        },
        r is Ok ==> final(ctx).wallet_state.wf(),
{
    if total_shares == 0 {
        return Err(LedgerError::PreconditionFailed);
    }
    let bump = match ctx.fund_wallet_bump {
        Some(b) => b,
        None => return Err(LedgerError::InvalidArgument),
    };
    let minimum_rent = ctx.minimum_balance.saturating_sub(ctx.fund_wallet);
    let excess = ctx.fund_wallet.saturating_sub(ctx.minimum_balance);
    if minimum_rent > ctx.creator_lamports {
        return Err(LedgerError::InsufficientFunding);
    }
    let paid = ctx.creator_lamports - minimum_rent;
    if paid > u64::MAX - excess {
        return Err(LedgerError::ArithmeticOverflow);
    }
    ctx.creator_lamports = paid + excess;
    ctx.fund_wallet = ctx.minimum_balance;
    ctx.wallet_state.initialize(ctx.creator, total_shares, ctx.fund_wallet, bump);
    ctx.creator_state.initialize(total_shares, 0);
    Ok(())
}

/// Gives a joining holder a record with no shares, whose snapshot is the
/// pool's current rate, so that nothing accrued before it joined is its own.
pub fn create_stake_account(ctx: &mut CreateStakeAccount) -> (r: Result<(), LedgerError>)
    ensures
        r is Ok,
        *final(ctx) == (CreateStakeAccount {
            user_state: Stake {
                num_shares: 0,
                total_deposits_per_share_snapshot: old(ctx).wallet_state.total_deposits_per_share,
                ..old(ctx).user_state
            },
            ..*old(ctx)
        }),
{
    let rate = ctx.wallet_state.total_deposits_per_share;
    ctx.user_state.initialize(0, rate);
    Ok(())
}

/// Observes the custody balance `balance` on a copy of the pool: refused where
/// it fell below the anchor or a counter would overflow.
fn observe(wallet_state: &WalletState, balance: u64) -> (r: Result<WalletState, LedgerError>)
    requires
        wallet_state.wf(),
    ensures
        r == (if balance < wallet_state.last_snapshot {
            Err::<WalletState, LedgerError>(LedgerError::BalanceInvariantViolated)
        } else if !wallet_state.detection_fits(balance) {
            Err(LedgerError::ArithmeticOverflow)
        } else {
            Ok(wallet_state.detected(balance))
        }),
        r is Ok ==> r->Ok_0.wf(),
{
    if balance < wallet_state.last_snapshot {
        return Err(LedgerError::BalanceInvariantViolated);
    }
    let mut w = *wallet_state;
    match w.update_internal_accounting(balance) {
        Ok(()) => Ok(w),
        Err(e) => Err(e),
    }
}

/// Moves the pool's observation point to the custody balance `balance`.
fn reanchor(wallet_state: &mut WalletState, balance: u64) -> (r: Result<(), LedgerError>)
    ensures
        r is Ok <==> old(wallet_state).anchor_fits(balance),
        r is Ok ==> *final(wallet_state) == old(wallet_state).anchored(balance),
        r is Err ==> r == Err::<(), LedgerError>(LedgerError::BalanceInvariantViolated)
            && *final(wallet_state) == *old(wallet_state),
{
    let floor: u128 = wallet_state.dust as u128 + wallet_state.starting_balance as u128;
    if (balance as u128) < floor {
        return Err(LedgerError::BalanceInvariantViolated);
    }
    wallet_state.last_snapshot = (balance as u128 - floor) as u64;
    Ok(())
}

/// Observes new deposits, pays the claiming holder what accrued to its shares,
/// and re-anchors the pool's observation point. All or nothing.
pub fn claim(ctx: &mut Claim) -> (r: Result<(), LedgerError>)
    requires
        old(ctx).wallet_state.wf(),
    ensures
        match claimed(*old(ctx)) {
            Ok(c) => r is Ok && *final(ctx) == c,
            Err(e) => r == Err::<(), LedgerError>(e) && *final(ctx) == *old(ctx),
        },
        final(ctx).wallet_state.wf(),
        final(ctx).wallet_state.total_deposits_per_share >= old(ctx).wallet_state.total_deposits_per_share,
{
    let mut wallet = match observe(&ctx.wallet_state, ctx.fund_wallet) {
        Ok(w) => w,
        Err(e) => return Err(e),
    };
    let mut state = ctx.recipient_state;
    let mut fund = ctx.fund_wallet;
    let mut to = ctx.recipient;
    match wallet.claim(&mut state, &mut fund, &mut to) {
        Ok(()) => {},
        Err(e) => return Err(e),
    }
    match reanchor(&mut wallet, fund) {
        Ok(()) => {},
        Err(e) => return Err(e),
    }
    ctx.wallet_state = wallet;
    ctx.fund_wallet = fund;
    ctx.recipient = to;
    ctx.recipient_state = state;
    Ok(())
}

/// Moves up to `num_shares` shares from the sender to the recipient, after
/// observing new deposits once and settling the recipient and then the
/// sender at that rate; then re-anchors the pool's observation point. A
/// sender without shares is refused. All or nothing.
pub fn transfer_shares(ctx: &mut TransferShares, num_shares: u64) -> (r: Result<(), LedgerError>)
    requires
        old(ctx).wallet_state.wf(),
    ensures
        match transferred(*old(ctx), num_shares) {
            Ok(t) => r is Ok && *final(ctx) == t,
            Err(e) => r == Err::<(), LedgerError>(e) && *final(ctx) == *old(ctx),
        },
        final(ctx).wallet_state.wf(),
        final(ctx).wallet_state.total_deposits_per_share >= old(ctx).wallet_state.total_deposits_per_share,
        final(ctx).sender_state.num_shares + final(ctx).recipient_state.num_shares
            == old(ctx).sender_state.num_shares + old(ctx).recipient_state.num_shares,
{
    if ctx.sender_state.num_shares == 0 {
        return Err(LedgerError::PreconditionFailed);
    }
    let mut wallet = match observe(&ctx.wallet_state, ctx.fund_wallet) {
        Ok(w) => w,
        Err(e) => return Err(e),
    };
    let mut fund = ctx.fund_wallet;
    let mut recipient_state = ctx.recipient_state;
    let mut recipient = ctx.recipient;
    match wallet.claim(&mut recipient_state, &mut fund, &mut recipient) {
        Ok(()) => {},
        Err(e) => return Err(e),
    }
    let mut sender_state = ctx.sender_state;
    let mut sender = ctx.sender;
    match wallet.claim(&mut sender_state, &mut fund, &mut sender) {
        Ok(()) => {},
        Err(e) => return Err(e),
    }
    match sender_state.transfer(&mut recipient_state, num_shares) {
        Ok(()) => {},
        Err(e) => return Err(e),
    }
    match reanchor(&mut wallet, fund) {
        Ok(()) => {},
        Err(e) => return Err(e),
    }
    ctx.wallet_state = wallet;
    ctx.fund_wallet = fund;
    ctx.sender = sender;
    ctx.sender_state = sender_state;
    ctx.recipient_state = recipient_state;
    ctx.recipient = recipient;
    Ok(())
}

} // verus!
