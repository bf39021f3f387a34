//! Properties that relate the protocol's operations to one another.
use vstd::prelude::*;
use crate::state::{CoinFlipError, CoinSide, Key};
use crate::randomness::{
    outcome_of, randomness_layout_ok, randomness_request_of, randomness_view_of, RandomnessView,
};
use crate::engine::{commit_post, revealed_side, settle_post, CoinFlip, SettleFlip};

verus! {

/// The side depends on the revealed byte's parity alone: bytes of one parity
/// show the same side, an even byte shows heads and an odd one tails.
pub proof fn lemma_outcome_by_parity(a: u8, b: u8)
    requires
        a % 2 == b % 2,
    ensures
        outcome_of(a) == outcome_of(b),
        a % 2 == 0 ==> outcome_of(a) == CoinSide::Heads,
        a % 2 == 1 ==> outcome_of(a) == CoinSide::Tails,
{
}

/// A settled commitment cannot be settled again: a second settlement, whatever
/// request it reads, is refused as a mismatch and changes nothing, so nothing
/// is paid twice.
pub proof fn lemma_settle_once(
    pre: SettleFlip,
    mid: SettleFlip,
    post: SettleFlip,
    first: Option<RandomnessView>,
    second: Option<RandomnessView>,
    r1: Result<u64, CoinFlipError>,
    r2: Result<u64, CoinFlipError>,
)
    requires
        settle_post(pre, mid, first, r1),
        r1 is Ok,
        settle_post(mid, post, second, r2),
    ensures
        r2 == Err::<u64, CoinFlipError>(CoinFlipError::RandomnessAccountMismatch),
        post == mid,
{
}

/// Settling the record's commitment against the request it recorded, once the
/// oracle has revealed it, succeeds whenever a win can be paid: a right guess
/// is paid twice the wager and a wrong one nothing, the payout moves from the
/// vault to the wager balance, and the record is idle again either way.
pub proof fn lemma_settle_payout(pre: SettleFlip, post: SettleFlip, r: Result<u64, CoinFlipError>)
    requires
        settle_post(pre, post, randomness_request_of(pre.randomness_account_data.data@), r),
        pre.user == pre.player_stats.allowed_user,
        pre.player_stats.randomness_account == Some(pre.randomness_account_data.key),
        randomness_layout_ok(pre.randomness_account_data.data@),
        randomness_view_of(pre.randomness_account_data.data@).seed_slot == pre.player_stats.commit_slot,
        randomness_view_of(pre.randomness_account_data.data@).reveal_slot == pre.clock_slot,
        pre.player_stats.current_guess == Some(
            revealed_side(randomness_view_of(pre.randomness_account_data.data@)),
        ) ==> {
            &&& pre.escrow.lamports >= 2 * pre.player_stats.wagered_amount + pre.escrow.rent_reserve
            &&& pre.player_stats.wager_balance + 2 * pre.player_stats.wagered_amount <= u64::MAX
        },
    ensures
        r is Ok,
        pre.player_stats.current_guess == Some(
            revealed_side(randomness_view_of(pre.randomness_account_data.data@)),
        ) ==> r->Ok_0 == 2 * pre.player_stats.wagered_amount,
        pre.player_stats.current_guess != Some(
            revealed_side(randomness_view_of(pre.randomness_account_data.data@)),
        ) ==> r->Ok_0 == 0,
        post.player_stats.wager_balance == pre.player_stats.wager_balance + r->Ok_0,
        post.escrow.lamports == pre.escrow.lamports - r->Ok_0,
        post.player_stats.wagered_amount == 0,
        post.player_stats.current_guess is None,
        post.player_stats.randomness_account is None,
        post.player_stats.commit_slot == 0,
        post.player_stats.allowed_user == pre.player_stats.allowed_user,
        post.player_stats.bump == pre.player_stats.bump,
        post.player_stats.random_guess_result == Some(
            revealed_side(randomness_view_of(pre.randomness_account_data.data@)),
        ),
{
}

/// A positive commitment within the wager balance, by the owner, naming the
/// given randomness account, which holds a request whose target slot has not
/// passed, succeeds: the record is committed to it, the amount leaves the wager
/// balance and the vault holds that much more.
pub proof fn lemma_commit_within_balance(
    pre: CoinFlip,
    post: CoinFlip,
    key: Key,
    amount: u64,
    guess: CoinSide,
    r: Result<(), CoinFlipError>,
)
    requires
        commit_post(
            pre,
            post,
            key,
            amount,
            guess,
            randomness_request_of(pre.randomness_account_data.data@),
            r,
        ),
        pre.user == pre.player_stats.allowed_user,
        0 < amount <= pre.player_stats.wager_balance,
        key == pre.randomness_account_data.key,
        !key.is_null(),
        randomness_layout_ok(pre.randomness_account_data.data@),
        randomness_view_of(pre.randomness_account_data.data@).seed_slot >= pre.clock_slot,
        pre.escrow.lamports + amount <= u64::MAX,
    ensures
        r is Ok,
        post.player_stats.is_committed(),
        post.player_stats.randomness_account == Some(key),
        post.player_stats.current_guess == Some(guess),
        post.player_stats.wagered_amount == amount,
        post.player_stats.commit_slot == randomness_view_of(pre.randomness_account_data.data@).seed_slot,
        post.player_stats.wager_balance == pre.player_stats.wager_balance - amount,
        post.escrow.lamports == pre.escrow.lamports + amount,
{
}

/// Committing and settling only move funds between the wager balance and the
/// vault: their sum is the same before and after. Committing from an idle
/// record keeps the player's balance plus stake, and a winning settlement
/// raises it.
pub proof fn lemma_funds_conserved(
    cpre: CoinFlip,
    cpost: CoinFlip,
    key: Key,
    amount: u64,
    guess: CoinSide,
    crequest: Option<RandomnessView>,
    cr: Result<(), CoinFlipError>,
    spre: SettleFlip,
    spost: SettleFlip,
    srequest: Option<RandomnessView>,
    sr: Result<u64, CoinFlipError>,
)
    requires
        commit_post(cpre, cpost, key, amount, guess, crequest, cr),
        settle_post(spre, spost, srequest, sr),
    ensures
        cpost.player_stats.wager_balance + cpost.escrow.lamports == cpre.player_stats.wager_balance
            + cpre.escrow.lamports,
        spost.player_stats.wager_balance + spost.escrow.lamports == spre.player_stats.wager_balance
            + spre.escrow.lamports,
        !cpre.player_stats.is_committed() && cpre.player_stats.wf() ==> cpost.player_stats.wager_balance
            + cpost.player_stats.wagered_amount == cpre.player_stats.wager_balance
            + cpre.player_stats.wagered_amount,
        sr is Ok && sr->Ok_0 > 0 ==> spost.player_stats.wager_balance + spost.player_stats.wagered_amount
            > spre.player_stats.wager_balance + spre.player_stats.wagered_amount,
{
}

} // verus!
