use mux::{
    assert_with_msg, claim, create_fund, create_stake_account, print_dec, transfer_shares, Claim,
    CreateFund, CreateStakeAccount, LedgerError, Pubkey, Stake, TransferShares, WalletState,
};

fn blank_wallet() -> WalletState {
    WalletState {
        creator: Pubkey { high: 0, low: 0 },
        dust: 0,
        total_shares: 0,
        total_deposits_per_share: 0,
        total_deposits: 0,
        last_snapshot: 0,
        starting_balance: 0,
        fund_wallet_bump: 0,
    }
}

fn stake(num_shares: u64, snapshot: u64) -> Stake {
    Stake {
        fund_wallet: Pubkey { high: 0, low: 9 },
        num_shares,
        total_deposits_per_share_snapshot: snapshot,
    }
}

/// A fresh pool of `total_shares` shares whose custody float is 1000.
fn pool(total_shares: u64) -> WalletState {
    let mut ctx = CreateFund {
        wallet_state: blank_wallet(),
        fund_wallet: 0,
        fund_wallet_bump: Some(254),
        creator: Pubkey { high: 0, low: 7 },
        creator_lamports: 5000,
        creator_state: stake(0, 0),
        minimum_balance: 1000,
    };
    assert_eq!(create_fund(&mut ctx, total_shares), Ok(()));
    ctx.wallet_state
}

#[test]
fn create_fund_sets_up_pool_and_creator() {
    let mut ctx = CreateFund {
        wallet_state: blank_wallet(),
        fund_wallet: 0,
        fund_wallet_bump: Some(254),
        creator: Pubkey { high: 0, low: 7 },
        creator_lamports: 5000,
        creator_state: stake(3, 3),
        minimum_balance: 1000,
    };
    assert_eq!(create_fund(&mut ctx, 100), Ok(()));
    assert_eq!(ctx.fund_wallet, 1000);
    assert_eq!(ctx.creator_lamports, 4000);
    assert_eq!(ctx.wallet_state.creator, Pubkey { high: 0, low: 7 });
    assert_eq!(ctx.wallet_state.total_shares, 100);
    assert_eq!(ctx.wallet_state.starting_balance, 1000);
    assert_eq!(ctx.wallet_state.fund_wallet_bump, 254);
    assert_eq!(ctx.wallet_state.total_deposits_per_share, 0);
    assert_eq!(ctx.creator_state.num_shares, 100);
    assert_eq!(ctx.creator_state.total_deposits_per_share_snapshot, 0);
}

#[test]
fn create_fund_returns_excess_to_creator() {
    let mut ctx = CreateFund {
        wallet_state: blank_wallet(),
        fund_wallet: 1300,
        fund_wallet_bump: Some(1),
        creator: Pubkey { high: 0, low: 7 },
        creator_lamports: 50,
        creator_state: stake(0, 0),
        minimum_balance: 1000,
    };
    assert_eq!(create_fund(&mut ctx, 10), Ok(()));
    assert_eq!(ctx.fund_wallet, 1000);
    assert_eq!(ctx.creator_lamports, 350);
}

#[test]
fn create_fund_rejects_zero_shares() {
    let before = CreateFund {
        wallet_state: blank_wallet(),
        fund_wallet: 0,
        fund_wallet_bump: Some(254),
        creator: Pubkey { high: 0, low: 7 },
        creator_lamports: 5000,
        creator_state: stake(0, 0),
        minimum_balance: 1000,
    };
    let mut ctx = before;
    assert_eq!(create_fund(&mut ctx, 0), Err(LedgerError::PreconditionFailed));
    assert_eq!(ctx, before);
}

#[test]
fn create_fund_rejects_missing_bump() {
    let mut ctx = CreateFund {
        wallet_state: blank_wallet(),
        fund_wallet: 0,
        fund_wallet_bump: None,
        creator: Pubkey { high: 0, low: 7 },
        creator_lamports: 5000,
        creator_state: stake(0, 0),
        minimum_balance: 1000,
    };
    assert_eq!(create_fund(&mut ctx, 10), Err(LedgerError::InvalidArgument));
}

#[test]
fn create_fund_rejects_unfunded_creator() {
    let before = CreateFund {
        wallet_state: blank_wallet(),
        fund_wallet: 100,
        fund_wallet_bump: Some(3),
        creator: Pubkey { high: 0, low: 7 },
        creator_lamports: 899,
        creator_state: stake(0, 0),
        minimum_balance: 1000,
    };
    let mut ctx = before;
    assert_eq!(create_fund(&mut ctx, 10), Err(LedgerError::InsufficientFunding));
    assert_eq!(ctx, before);
}

#[test]
fn joining_holder_starts_at_current_rate() {
    let mut w = pool(100);
    w.total_deposits_per_share = 17;
    let mut ctx = CreateStakeAccount {
        wallet_state: w,
        user: Pubkey { high: 0, low: 5 },
        user_state: stake(8, 2),
    };
    assert_eq!(create_stake_account(&mut ctx), Ok(()));
    assert_eq!(ctx.user_state.num_shares, 0);
    assert_eq!(ctx.user_state.total_deposits_per_share_snapshot, 17);
}

#[test]
fn scenario_detect_and_claim() {
    let mut w = pool(100);
    assert_eq!(w.update_internal_accounting(1000 + 1050), Ok(()));
    assert_eq!(w.total_deposits_per_share, 10);
    assert_eq!(w.dust, 50);
    assert_eq!(w.total_deposits, 1050);

    let mut ctx = Claim {
        wallet_state: pool(100),
        fund_wallet: 1000 + 1050,
        recipient: 0,
        recipient_state: stake(30, 0),
    };
    assert_eq!(claim(&mut ctx), Ok(()));
    assert_eq!(ctx.recipient, 300);
    assert_eq!(ctx.fund_wallet, 1750);
    assert_eq!(ctx.recipient_state.total_deposits_per_share_snapshot, 10);
    assert_eq!(ctx.wallet_state.total_deposits_per_share, 10);
    assert_eq!(ctx.wallet_state.dust, 50);
    assert_eq!(ctx.wallet_state.last_snapshot, 700);
}

#[test]
fn scenario_dust_carries_into_rate() {
    let mut ctx = Claim {
        wallet_state: pool(100),
        fund_wallet: 1000 + 1050,
        recipient: 0,
        recipient_state: stake(30, 0),
    };
    assert_eq!(claim(&mut ctx), Ok(()));
    let mut w = ctx.wallet_state;
    assert_eq!(w.update_internal_accounting(ctx.fund_wallet + 60), Ok(()));
    assert_eq!(w.dust, 10);
    assert_eq!(w.total_deposits_per_share, 11);
    assert_eq!(w.total_deposits, 1110);
}

#[test]
fn detection_without_new_value_changes_nothing() {
    let mut w = pool(100);
    w.last_snapshot = 40;
    w.dust = 7;
    let before = w;
    assert_eq!(w.update_internal_accounting(1047), Ok(()));
    assert_eq!(w, before);
    assert_eq!(w.update_internal_accounting(900), Ok(()));
    assert_eq!(w, before);
}

#[test]
fn detection_overflow_is_refused() {
    let mut w = pool(1);
    w.total_deposits_per_share = u64::MAX - 5;
    let before = w;
    assert_eq!(w.update_internal_accounting(1010), Err(LedgerError::ArithmeticOverflow));
    assert_eq!(w, before);
}

#[test]
fn dust_stays_below_total_shares() {
    let mut w = pool(7);
    let mut balance = 1000u64;
    for step in 1..40u64 {
        balance += step * 3 + 1;
        assert_eq!(w.update_internal_accounting(balance), Ok(()));
        assert!(w.dust < w.total_shares);
        w.last_snapshot = balance - w.dust - w.starting_balance;
    }
}

#[test]
fn scenario_transfer_up_to_available() {
    let mut ctx = TransferShares {
        wallet_state: pool(100),
        fund_wallet: 1000,
        sender: 0,
        sender_state: stake(40, 0),
        recipient_state: stake(60, 0),
        recipient: 0,
    };
    assert_eq!(transfer_shares(&mut ctx, 500), Ok(()));
    assert_eq!(ctx.sender_state.num_shares, 0);
    assert_eq!(ctx.recipient_state.num_shares, 100);
}

#[test]
fn transfer_from_empty_sender_is_refused() {
    let before = TransferShares {
        wallet_state: pool(100),
        fund_wallet: 1000,
        sender: 0,
        sender_state: stake(0, 0),
        recipient_state: stake(100, 0),
        recipient: 0,
    };
    let mut ctx = before;
    assert_eq!(transfer_shares(&mut ctx, 1), Err(LedgerError::PreconditionFailed));
    assert_eq!(ctx, before);
}

#[test]
fn transfer_settles_both_before_moving_shares() {
    let mut ctx = TransferShares {
        wallet_state: pool(100),
        fund_wallet: 1000 + 500,
        sender: 10,
        sender_state: stake(70, 0),
        recipient_state: stake(30, 0),
        recipient: 20,
    };
    assert_eq!(transfer_shares(&mut ctx, 20), Ok(()));
    assert_eq!(ctx.sender, 10 + 350);
    assert_eq!(ctx.recipient, 20 + 150);
    assert_eq!(ctx.fund_wallet, 1000);
    assert_eq!(ctx.sender_state.num_shares, 50);
    assert_eq!(ctx.recipient_state.num_shares, 50);
    assert_eq!(ctx.sender_state.total_deposits_per_share_snapshot, 5);
    assert_eq!(ctx.recipient_state.total_deposits_per_share_snapshot, 5);
    assert_eq!(ctx.wallet_state.last_snapshot, 0);
}

#[test]
fn transfer_overflowing_recipient_is_refused() {
    let before = TransferShares {
        wallet_state: pool(100),
        fund_wallet: 1000,
        sender: 0,
        sender_state: stake(5, 0),
        recipient_state: stake(u64::MAX - 2, 0),
        recipient: 0,
    };
    let mut ctx = before;
    assert_eq!(transfer_shares(&mut ctx, 5), Err(LedgerError::ArithmeticOverflow));
    assert_eq!(ctx, before);
}

#[test]
fn shares_are_conserved_over_transfers() {
    let mut holders = vec![stake(50, 0), stake(30, 0), stake(20, 0)];
    let moves = [(0usize, 1usize, 10u64), (1, 2, 100), (2, 0, 7), (0, 2, 3)];
    for (from, to, n) in moves {
        let mut ctx = TransferShares {
            wallet_state: pool(100),
            fund_wallet: 1000,
            sender: 0,
            sender_state: holders[from],
            recipient_state: holders[to],
            recipient: 0,
        };
        assert_eq!(transfer_shares(&mut ctx, n), Ok(()));
        holders[from] = ctx.sender_state;
        holders[to] = ctx.recipient_state;
        let total: u64 = holders.iter().map(|h| h.num_shares).sum();
        assert_eq!(total, 100);
    }
}

#[test]
fn accrual_rate_never_decreases() {
    let mut ctx = Claim {
        wallet_state: pool(10),
        fund_wallet: 1000,
        recipient: 0,
        recipient_state: stake(10, 0),
    };
    let mut last_rate = 0u64;
    for deposit in [0u64, 5, 13, 0, 40, 1] {
        ctx.fund_wallet += deposit;
        assert_eq!(claim(&mut ctx), Ok(()));
        assert!(ctx.wallet_state.total_deposits_per_share >= last_rate);
        last_rate = ctx.wallet_state.total_deposits_per_share;
    }
    assert_eq!(last_rate, 5);
}

#[test]
fn second_claim_pays_nothing() {
    let mut ctx = Claim {
        wallet_state: pool(100),
        fund_wallet: 1000 + 1050,
        recipient: 0,
        recipient_state: stake(30, 0),
    };
    assert_eq!(claim(&mut ctx), Ok(()));
    let after_first = ctx;
    assert_eq!(claim(&mut ctx), Ok(()));
    assert_eq!(ctx.recipient, 300);
    assert_eq!(ctx, after_first);
}

#[test]
fn settling_before_or_after_transfer_pays_the_same() {
    let w = pool(100);
    let start = TransferShares {
        wallet_state: w,
        fund_wallet: 1000 + 730,
        sender: 0,
        sender_state: stake(60, 0),
        recipient_state: stake(40, 0),
        recipient: 0,
    };
    // transfer, then both claim
    let mut t = start;
    assert_eq!(transfer_shares(&mut t, 25), Ok(()));
    let mut cs = Claim { wallet_state: t.wallet_state, fund_wallet: t.fund_wallet, recipient: t.sender, recipient_state: t.sender_state };
    assert_eq!(claim(&mut cs), Ok(()));
    let mut cr = Claim { wallet_state: cs.wallet_state, fund_wallet: cs.fund_wallet, recipient: t.recipient, recipient_state: t.recipient_state };
    assert_eq!(claim(&mut cr), Ok(()));
    let first = cs.recipient + cr.recipient;
    // both claim, then transfer
    let mut ds = Claim { wallet_state: w, fund_wallet: start.fund_wallet, recipient: 0, recipient_state: start.sender_state };
    assert_eq!(claim(&mut ds), Ok(()));
    let mut dr = Claim { wallet_state: ds.wallet_state, fund_wallet: ds.fund_wallet, recipient: 0, recipient_state: start.recipient_state };
    assert_eq!(claim(&mut dr), Ok(()));
    let mut u = TransferShares {
        wallet_state: dr.wallet_state,
        fund_wallet: dr.fund_wallet,
        sender: ds.recipient,
        sender_state: ds.recipient_state,
        recipient_state: dr.recipient_state,
        recipient: dr.recipient,
    };
    assert_eq!(transfer_shares(&mut u, 25), Ok(()));
    assert_eq!(first, u.sender + u.recipient);
    assert_eq!(first, 700);
}

#[test]
fn claim_below_anchor_is_refused() {
    let mut w = pool(100);
    w.last_snapshot = 500;
    let before = Claim { wallet_state: w, fund_wallet: 499, recipient: 0, recipient_state: stake(1, 0) };
    let mut ctx = before;
    assert_eq!(claim(&mut ctx), Err(LedgerError::BalanceInvariantViolated));
    assert_eq!(ctx, before);
}

#[test]
fn claim_custody_short_of_payout_is_refused() {
    let mut w = pool(100);
    w.total_deposits_per_share = 50;
    let before = Claim { wallet_state: w, fund_wallet: 1000, recipient: 0, recipient_state: stake(100, 0) };
    let mut ctx = before;
    assert_eq!(claim(&mut ctx), Err(LedgerError::PaymentFailed));
    assert_eq!(ctx, before);
}

#[test]
fn settlement_pays_and_advances_snapshot() {
    let mut w = pool(100);
    w.total_deposits_per_share = 9;
    let mut s = stake(4, 6);
    let mut fund = 100u64;
    let mut to = 1u64;
    assert_eq!(w.claim(&mut s, &mut fund, &mut to), Ok(()));
    assert_eq!(fund, 88);
    assert_eq!(to, 13);
    assert_eq!(s.total_deposits_per_share_snapshot, 9);
    // a snapshot above the rate gives nothing
    let mut s2 = stake(4, 12);
    assert_eq!(w.claim(&mut s2, &mut fund, &mut to), Ok(()));
    assert_eq!(fund, 88);
    assert_eq!(s2.total_deposits_per_share_snapshot, 9);
}

#[test]
fn stake_transfer_moves_at_most_held() {
    let mut a = stake(40, 0);
    let mut b = stake(1, 0);
    assert_eq!(a.transfer(&mut b, 500), Ok(()));
    assert_eq!((a.num_shares, b.num_shares), (0, 41));
    let mut c = stake(10, 0);
    let mut d = stake(u64::MAX, 0);
    assert_eq!(c.transfer(&mut d, 1), Err(LedgerError::ArithmeticOverflow));
    assert_eq!((c.num_shares, d.num_shares), (10, u64::MAX));
    let mut e = stake(0, 3);
    e.initialize(12, 4);
    assert_eq!((e.num_shares, e.total_deposits_per_share_snapshot), (12, 4));
}

#[test]
fn assert_with_msg_passes_or_fails() {
    assert_eq!(assert_with_msg(true, LedgerError::InvalidArgument, "fine"), Ok(()));
    assert_eq!(
        assert_with_msg(false, LedgerError::ArithmeticOverflow, "bad"),
        Err(LedgerError::ArithmeticOverflow)
    );
    assert_eq!(LedgerError::ArithmeticOverflow.message(), "arithmetic overflow");
}

#[test]
fn print_dec_renders_fixed_point() {
    assert_eq!(print_dec(1_500_000_000, 9), "1.500000000");
    assert_eq!(print_dec(5, 3), "0.005");
    assert_eq!(print_dec(42, 0), "42.0");
    assert_eq!(print_dec(123_456, 2), "1234.56");
    assert_eq!(print_dec(u64::MAX, 19), "1.8446744073709551615");
}
