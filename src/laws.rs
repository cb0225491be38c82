use vstd::prelude::*;
use crate::error::LedgerError;
use crate::instructions::{claimed, transferred, Claim, TransferShares};
use crate::ledger::{lemma_split_carry, Stake, WalletState};

verus! {

/// The shares held over a sequence of holder records.
pub open spec fn shares_held(holders: Seq<Stake>) -> int
    decreases holders.len(),
{
    if holders.len() == 0 {
        0
    } else {
        shares_held(holders.drop_last()) + holders.last().num_shares
    }
}

proof fn lemma_shares_held_update(holders: Seq<Stake>, i: int, s: Stake)
    requires
        0 <= i < holders.len(),
    ensures
        shares_held(holders.update(i, s)) == shares_held(holders) - holders[i].num_shares
            + s.num_shares,
    decreases holders.len(),
{
    let u = holders.update(i, s);
    if i == holders.len() - 1 {
        assert(u.drop_last() =~= holders.drop_last());
    } else {
        lemma_shares_held_update(holders.drop_last(), i, s);
        assert(u.drop_last() =~= holders.drop_last().update(i, s));
    }
}

/// An observation of a custody balance that holds exactly the anchor, the
/// float and the dust finds nothing new and changes nothing.
proof fn lemma_quiet_detection(w: WalletState, balance: u64)
    requires
        w.wf(),
        balance == w.last_snapshot + w.dust + w.starting_balance,
    ensures
        w.detection_fits(balance),
        w.detected(balance) == w,
{
    lemma_split_carry(w.dust as int, 0, w.total_shares as int);
}

/// A share transfer keeps the shares held over all holders of the pool: where
/// the sender and the recipient are two distinct holders, the total after the
/// transfer equals the total before, so it stays equal to the pool's shares.
pub proof fn lemma_transfer_conserves_shares(
    holders: Seq<Stake>,
    sender: int,
    recipient: int,
    ctx: TransferShares,
    num_shares: u64,
)
    requires
        0 <= sender < holders.len(),
        0 <= recipient < holders.len(),
        sender != recipient,
        ctx.sender_state == holders[sender],
        ctx.recipient_state == holders[recipient],
        transferred(ctx, num_shares) is Ok,
    ensures
        ({
            let t = transferred(ctx, num_shares)->Ok_0;
            shares_held(
                holders.update(sender, t.sender_state).update(recipient, t.recipient_state),
            ) == shares_held(holders)
        }),
{
    let t = transferred(ctx, num_shares)->Ok_0;
    let once = holders.update(sender, t.sender_state);
    lemma_shares_held_update(holders, sender, t.sender_state);
    lemma_shares_held_update(once, recipient, t.recipient_state);
}

/// No operation lowers the pool's accrual rate, and an operation that is
/// refused changes nothing.
pub proof fn lemma_accrual_monotone(c: Claim, t: TransferShares, num_shares: u64, balance: u64)
    requires
        c.wallet_state.wf(),
        t.wallet_state.wf(),
    ensures
        c.wallet_state.detection_fits(balance) ==> c.wallet_state.detected(balance).total_deposits_per_share
            >= c.wallet_state.total_deposits_per_share,
        claimed(c) is Ok ==> claimed(c)->Ok_0.wallet_state.total_deposits_per_share
            >= c.wallet_state.total_deposits_per_share,
        transferred(t, num_shares) is Ok ==> transferred(t, num_shares)->Ok_0.wallet_state.total_deposits_per_share
            >= t.wallet_state.total_deposits_per_share,
{
}

/// Claiming a second time with no deposit in between pays nothing: the second
/// claim succeeds and leaves every record and balance as the first left it.
pub proof fn lemma_no_double_payment(c: Claim)
    requires
        c.wallet_state.wf(),
        claimed(c) is Ok,
    ensures
        claimed(claimed(c)->Ok_0) == Ok::<Claim, LedgerError>(claimed(c)->Ok_0),
        claimed(claimed(c)->Ok_0)->Ok_0.recipient == claimed(c)->Ok_0.recipient,
{
    let c1 = claimed(c)->Ok_0;
    let w = c1.wallet_state;
    lemma_split_carry(c.wallet_state.dust as int, c.wallet_state.new_deposits(c.fund_wallet), c.wallet_state.total_shares as int);
    assert(w.wf()) by {
        vstd::arithmetic::div_mod::lemma_mod_bound(
            c.wallet_state.dust + c.wallet_state.new_deposits(c.fund_wallet),
            c.wallet_state.total_shares as int,
        );
    }
    lemma_quiet_detection(w, c1.fund_wallet);
    assert(w.withdrawable(c1.recipient_state) == 0);
    assert(w.settled(c1.recipient_state, c1.fund_wallet, c1.recipient) == Ok::<(Stake, u64, u64), LedgerError>((c1.recipient_state, c1.fund_wallet, c1.recipient)));
    assert(w.anchored(c1.fund_wallet) == w);
}

proof fn lemma_detected_wf(w: WalletState, balance: u64)
    requires
        w.wf(),
        w.detection_fits(balance),
    ensures
        w.detected(balance).wf(),
{
    vstd::arithmetic::div_mod::lemma_mod_bound(
        w.dust + w.new_deposits(balance),
        w.total_shares as int,
    );
}

/// Settling a holder whose snapshot is the current rate pays nothing.
proof fn lemma_settled_quiet(w: WalletState, s: Stake, fund_wallet: u64, recipient: u64)
    requires
        s.total_deposits_per_share_snapshot == w.total_deposits_per_share,
    ensures
        w.settled(s, fund_wallet, recipient) == Ok::<(Stake, u64, u64), LedgerError>((s, fund_wallet, recipient)),
{
    assert(w.withdrawable(s) == 0);
}

/// The claim context of the sender of a transfer.
pub open spec fn sender_claim(t: TransferShares) -> Claim {
    Claim {
        wallet_state: t.wallet_state,
        fund_wallet: t.fund_wallet,
        recipient: t.sender,
        recipient_state: t.sender_state,
    }
}

/// What the holders of a transfer were paid between `t` and the balances
/// `sender` and `recipient`.
pub open spec fn paid(t: TransferShares, sender: u64, recipient: u64) -> int {
    (sender - t.sender) + (recipient - t.recipient)
}

/// Settling both parties before a transfer pays them what settling after it
/// does: a transfer followed by a claim of the sender and then of the
/// recipient pays the two together as much as a claim of the sender and then
/// of the recipient followed by the transfer, where every step succeeds.
pub proof fn lemma_settlement_precedes_transfer(t: TransferShares, num_shares: u64)
    requires
        t.wallet_state.wf(),
        transferred(t, num_shares) is Ok,
        claimed(sender_claim(t)) is Ok,
        ({
            let c1 = claimed(sender_claim(t))->Ok_0;
            claimed(Claim { wallet_state: c1.wallet_state, fund_wallet: c1.fund_wallet, recipient: t.recipient, recipient_state: t.recipient_state }) is Ok
        }),
    ensures
        ({
            // transfer first, then claim for the sender and for the recipient
            let a = transferred(t, num_shares)->Ok_0;
            let a1 = claimed(sender_claim(a))->Ok_0;
            let a2 = claimed(Claim { wallet_state: a1.wallet_state, fund_wallet: a1.fund_wallet, recipient: a.recipient, recipient_state: a.recipient_state })->Ok_0;
            // claim for the sender and for the recipient, then transfer
            let b1 = claimed(sender_claim(t))->Ok_0;
            let b2 = claimed(Claim { wallet_state: b1.wallet_state, fund_wallet: b1.fund_wallet, recipient: t.recipient, recipient_state: t.recipient_state })->Ok_0;
            let b = transferred(TransferShares { wallet_state: b2.wallet_state, fund_wallet: b2.fund_wallet, sender: b1.recipient, sender_state: b1.recipient_state, recipient_state: b2.recipient_state, recipient: b2.recipient }, num_shares);
            &&& claimed(sender_claim(a)) is Ok
            &&& claimed(Claim { wallet_state: a1.wallet_state, fund_wallet: a1.fund_wallet, recipient: a.recipient, recipient_state: a.recipient_state }) is Ok
            &&& b is Ok
            &&& paid(t, a1.recipient, a2.recipient) == paid(t, b->Ok_0.sender, b->Ok_0.recipient)
        }),
{
    let w0 = t.wallet_state;
    let bal = t.fund_wallet;
    let w = w0.detected(bal);
    lemma_detected_wf(w0, bal);
    // transfer first
    let a = transferred(t, num_shares)->Ok_0;
    lemma_quiet_detection(a.wallet_state, a.fund_wallet);
    lemma_settled_quiet(a.wallet_state, a.sender_state, a.fund_wallet, a.sender);
    assert(a.wallet_state.anchored(a.fund_wallet) == a.wallet_state);
    assert(claimed(sender_claim(a)) == Ok::<Claim, LedgerError>(sender_claim(a)));
    lemma_settled_quiet(a.wallet_state, a.recipient_state, a.fund_wallet, a.recipient);
    let ca = Claim { wallet_state: a.wallet_state, fund_wallet: a.fund_wallet, recipient: a.recipient, recipient_state: a.recipient_state };
    assert(claimed(ca) == Ok::<Claim, LedgerError>(ca));
    // claims first
    let b1 = claimed(sender_claim(t))->Ok_0;
    lemma_quiet_detection(b1.wallet_state, b1.fund_wallet);
    assert(b1.wallet_state.anchored(b1.fund_wallet) == b1.wallet_state);
    let cb = Claim { wallet_state: b1.wallet_state, fund_wallet: b1.fund_wallet, recipient: t.recipient, recipient_state: t.recipient_state };
    let b2 = claimed(cb)->Ok_0;
    assert(b2.wallet_state == b1.wallet_state.anchored(b2.fund_wallet));
    lemma_quiet_detection(b2.wallet_state, b2.fund_wallet);
    lemma_settled_quiet(b2.wallet_state, b2.recipient_state, b2.fund_wallet, b2.recipient);
    lemma_settled_quiet(b2.wallet_state, b1.recipient_state, b2.fund_wallet, b1.recipient);
    assert(b2.wallet_state.anchored(b2.fund_wallet) == b2.wallet_state);
}

} // verus!
