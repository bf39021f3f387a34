//! The wager protocol: create and fund a record, commit a wager, settle it,
//! close the record. Each operation either applies whole or is refused with a
//! reason and changes nothing.
use vstd::prelude::*;
use crate::state::{CoinFlipError, CoinSide, EscrowVault, Key, PlayerStats};
use crate::randomness::{
    flip_outcome, outcome_of, randomness_request_of, read_randomness, request_view,
    RandomnessSnapshot, RandomnessView,
};

verus! {

/// The accounts that creating a record reads and changes.
#[derive(Clone, Copy, Debug)]
pub struct Initialize {
    pub signer: Key,
    /// The signer's wallet.
    pub signer_lamports: u64,
    /// The derivation nonce of the new record's address.
    pub bump: u8,
}

/// A new idle record owned by `owner` holding `balance`.
pub open spec fn fresh_stats(owner: Key, bump: u8, balance: u64) -> PlayerStats {
    PlayerStats {
        allowed_user: owner,
        randomness_account: None,
        random_guess_result: None,
        current_guess: None,
        wager_balance: balance,
        wagered_amount: 0,
        bump,
        commit_slot: 0,
    }
}

/// Creates the signer's record, funded with `transfer_amount` from the wallet.
pub fn initialize(ctx: &mut Initialize, transfer_amount: u64) -> (r: Result<PlayerStats, CoinFlipError>)
    ensures
        old(ctx).signer_lamports < transfer_amount ==> r == Err::<PlayerStats, CoinFlipError>(
            CoinFlipError::InsufficientBalance,
        ) && *final(ctx) == *old(ctx),
        old(ctx).signer_lamports >= transfer_amount ==> {
            &&& r == Ok::<PlayerStats, CoinFlipError>(
                fresh_stats(old(ctx).signer, old(ctx).bump, transfer_amount),
            )
            &&& final(ctx).signer_lamports == old(ctx).signer_lamports - transfer_amount
            &&& final(ctx).signer == old(ctx).signer
            &&& final(ctx).bump == old(ctx).bump
        },
        r is Ok ==> r->Ok_0.wf(),
{
    if ctx.signer_lamports < transfer_amount {
        return Err(CoinFlipError::InsufficientBalance);
    }
    ctx.signer_lamports = ctx.signer_lamports - transfer_amount;
    Ok(PlayerStats {
        allowed_user: ctx.signer,
        randomness_account: None,
        random_guess_result: None,
        current_guess: None,
        wager_balance: transfer_amount,
        wagered_amount: 0,
        bump: ctx.bump,
        commit_slot: 0,
    })
}

/// The accounts that funding a record reads and changes.
#[derive(Clone, Copy, Debug)]
pub struct Deposit {
    pub signer: Key,
    /// The signer's wallet.
    pub signer_lamports: u64,
    pub player_stats: PlayerStats,
}

/// The outcome of funding a record with `amount`.
pub open spec fn deposit_result(pre: Deposit, amount: u64) -> Result<(), CoinFlipError> {
    if pre.signer != pre.player_stats.allowed_user {
        Err(CoinFlipError::Unauthorized)
    } else if pre.signer_lamports < amount {
        Err(CoinFlipError::InsufficientBalance)
    } else if pre.player_stats.wager_balance + amount > u64::MAX {
        Err(CoinFlipError::BalanceOverflow)
    } else {
        Ok(())
    }
}

/// The accounts after `amount` moved from the wallet into the wager balance.
pub open spec fn deposited(pre: Deposit, amount: u64) -> Deposit {
    Deposit {
        signer_lamports: (pre.signer_lamports - amount) as u64,
        player_stats: PlayerStats {
            wager_balance: (pre.player_stats.wager_balance + amount) as u64,
            ..pre.player_stats
        },
        ..pre
    }
}

/// Moves `transfer_amount` from the owner's wallet into the record's wager balance.
pub fn deposit(ctx: &mut Deposit, transfer_amount: u64) -> (r: Result<(), CoinFlipError>)
    ensures
        r == deposit_result(*old(ctx), transfer_amount),
        r is Ok ==> *final(ctx) == deposited(*old(ctx), transfer_amount),
        r is Ok ==> final(ctx).player_stats.wager_balance == old(ctx).player_stats.wager_balance
            + transfer_amount,
        r is Ok ==> final(ctx).signer_lamports == old(ctx).signer_lamports - transfer_amount,
        r is Err ==> *final(ctx) == *old(ctx),
        old(ctx).player_stats.wf() ==> final(ctx).player_stats.wf(),
{
    if !ctx.signer.same_as(&ctx.player_stats.allowed_user) {
        return Err(CoinFlipError::Unauthorized);
    }
    if ctx.signer_lamports < transfer_amount {
        return Err(CoinFlipError::InsufficientBalance);
    }
    if ctx.player_stats.wager_balance > u64::MAX - transfer_amount {
        return Err(CoinFlipError::BalanceOverflow);
    }
    ctx.signer_lamports = ctx.signer_lamports - transfer_amount;
    ctx.player_stats.wager_balance = ctx.player_stats.wager_balance + transfer_amount;
    Ok(())
}

/// A randomness request's account: its identity and its bytes.
#[derive(Clone, Debug)]
pub struct RandomnessAccount {
    pub key: Key,
    pub data: Vec<u8>,
}

/// The accounts that committing a wager reads and changes.
#[derive(Clone, Debug)]
pub struct CoinFlip {
    pub user: Key,
    pub player_stats: PlayerStats,
    pub escrow: EscrowVault,
    pub randomness_account_data: RandomnessAccount,
    /// The ledger's current slot.
    pub clock_slot: u64,
}

/// The outcome of committing `amount` against request `key`, whose account
/// holds `request` (`None`: the account held no request).
pub open spec fn commit_result(
    pre: CoinFlip,
    key: Key,
    amount: u64,
    request: Option<RandomnessView>,
) -> Result<(), CoinFlipError> {
    if pre.user != pre.player_stats.allowed_user {
        Err(CoinFlipError::Unauthorized)
    } else if amount == 0 {
        Err(CoinFlipError::ZeroWager)
    } else if pre.player_stats.wager_balance < amount {
        Err(CoinFlipError::InsufficientUserWagerBalance)
    } else if key.is_null() || key != pre.randomness_account_data.key {
        Err(CoinFlipError::RandomnessAccountMismatch)
    } else {
        match request {
            None => Err(CoinFlipError::InvalidRandomnessData),
            Some(v) => if v.seed_slot < pre.clock_slot {
                Err(CoinFlipError::RandomnessAlreadyRevealed)
            } else if pre.escrow.lamports + amount > u64::MAX {
                Err(CoinFlipError::BalanceOverflow)
            } else {
                Ok(())
            },
        }
    }
}

/// The accounts after `amount` moved from the wager balance into the vault,
/// locked on `guess` against request `key` whose target slot is `seed_slot`.
/// A commitment already in flight is replaced: its funds stay in the vault.
pub open spec fn committed(pre: CoinFlip, key: Key, amount: u64, guess: CoinSide, seed_slot: u64) -> CoinFlip {
    CoinFlip {
        player_stats: PlayerStats {
            randomness_account: Some(key),
            current_guess: Some(guess),
            wager_balance: (pre.player_stats.wager_balance - amount) as u64,
            wagered_amount: amount,
            commit_slot: seed_slot,
            ..pre.player_stats
        },
        escrow: EscrowVault { lamports: (pre.escrow.lamports + amount) as u64, ..pre.escrow },
        ..pre
    }
}

/// How committing relates the accounts before and after, and the result.
pub open spec fn commit_post(
    pre: CoinFlip,
    post: CoinFlip,
    key: Key,
    amount: u64,
    guess: CoinSide,
    request: Option<RandomnessView>,
    r: Result<(), CoinFlipError>,
) -> bool {
    &&& r == commit_result(pre, key, amount, request)
    &&& r is Ok ==> post == committed(pre, key, amount, guess, request->0.seed_slot)
    &&& r is Err ==> post == pre
}

/// Commits `wagered_amount` on `current_guess` against `randomness_account`,
/// given the request already read out of the accounts' randomness account.
pub fn coin_flip_with_request(
    ctx: &mut CoinFlip,
    randomness_account: Key,
    wagered_amount: u64,
    current_guess: CoinSide,
    request: Option<RandomnessSnapshot>,
) -> (r: Result<(), CoinFlipError>)
    ensures
        commit_post(
            *old(ctx),
            *final(ctx),
            randomness_account,
            wagered_amount,
            current_guess,
            request_view(request),
            r,
        ),
        old(ctx).player_stats.wf() ==> final(ctx).player_stats.wf(),
{
    if !ctx.user.same_as(&ctx.player_stats.allowed_user) {
        return Err(CoinFlipError::Unauthorized);
    }
    if wagered_amount == 0 {
        return Err(CoinFlipError::ZeroWager);
    }
    if ctx.player_stats.wager_balance < wagered_amount {
        return Err(CoinFlipError::InsufficientUserWagerBalance);
    }
    if randomness_account.null() || !randomness_account.same_as(&ctx.randomness_account_data.key) {
        return Err(CoinFlipError::RandomnessAccountMismatch);
    }
    let seed_slot = match request {
        None => {
            return Err(CoinFlipError::InvalidRandomnessData);
        },
        Some(s) => s.seed_slot,
    };
    if seed_slot < ctx.clock_slot {
        return Err(CoinFlipError::RandomnessAlreadyRevealed);
    }
    if ctx.escrow.lamports > u64::MAX - wagered_amount {
        return Err(CoinFlipError::BalanceOverflow);
    }
    ctx.player_stats.wager_balance = ctx.player_stats.wager_balance - wagered_amount;
    ctx.player_stats.wagered_amount = wagered_amount;
    ctx.player_stats.current_guess = Some(current_guess);
    ctx.player_stats.commit_slot = seed_slot;
    ctx.player_stats.randomness_account = Some(randomness_account);
    ctx.escrow.lamports = ctx.escrow.lamports + wagered_amount;
    Ok(())
}

/// Commits a positive `wagered_amount` on `current_guess` against
/// `randomness_account`, which must be the accounts' randomness account and not
/// the null identity: the amount leaves the wager balance for the vault, and the
/// request's target slot, read from that account, is recorded. A commitment
/// already in flight is replaced and its funds stay in the vault.
pub fn coin_flip(
    ctx: &mut CoinFlip,
    randomness_account: Key,
    wagered_amount: u64,
    current_guess: CoinSide,
) -> (r: Result<(), CoinFlipError>)
    ensures
        commit_post(
            *old(ctx),
            *final(ctx),
            randomness_account,
            wagered_amount,
            current_guess,
            randomness_request_of(old(ctx).randomness_account_data.data@),
            r,
        ),
        r is Ok ==> {
            &&& final(ctx).player_stats.is_committed()
            &&& final(ctx).player_stats.wagered_amount == wagered_amount
            &&& final(ctx).player_stats.wager_balance == old(ctx).player_stats.wager_balance
                - wagered_amount
            &&& final(ctx).escrow.lamports == old(ctx).escrow.lamports + wagered_amount
        },
        old(ctx).player_stats.wf() ==> final(ctx).player_stats.wf(),
{
    let request = read_randomness(&ctx.randomness_account_data.data);
    coin_flip_with_request(ctx, randomness_account, wagered_amount, current_guess, request)
}

/// The accounts that settling a wager reads and changes.
#[derive(Clone, Debug)]
pub struct SettleFlip {
    pub user: Key,
    pub player_stats: PlayerStats,
    pub escrow: EscrowVault,
    pub randomness_account_data: RandomnessAccount,
    /// The ledger's current slot.
    pub clock_slot: u64,
}

/// The side that the revealed value of `request` shows.
pub open spec fn revealed_side(request: RandomnessView) -> CoinSide {
    outcome_of(request.value[0])
}

/// The outcome of settling against the request that `request` holds (`None`:
/// the account held no request): on success, the payout, twice the wager on a
/// win and nothing on a loss.
pub open spec fn settle_result(pre: SettleFlip, request: Option<RandomnessView>) -> Result<
    u64,
    CoinFlipError,
> {
    let p = pre.player_stats;
    if pre.user != p.allowed_user {
        Err(CoinFlipError::Unauthorized)
    } else if p.randomness_account != Some(pre.randomness_account_data.key) {
        Err(CoinFlipError::RandomnessAccountMismatch)
    } else {
        match request {
            None => Err(CoinFlipError::InvalidRandomnessData),
            Some(v) => if v.seed_slot != p.commit_slot {
                Err(CoinFlipError::RandomnessExpired)
            } else if v.reveal_slot != pre.clock_slot {
                Err(CoinFlipError::RandomnessNotResolved)
            } else if p.current_guess != Some(revealed_side(v)) {
                Ok(0)
            } else if pre.escrow.lamports < 2 * p.wagered_amount + pre.escrow.rent_reserve {
                Err(CoinFlipError::EscrowFundError)
            } else if p.wager_balance + 2 * p.wagered_amount > u64::MAX {
                Err(CoinFlipError::BalanceOverflow)
            } else {
                Ok((2 * p.wagered_amount) as u64)
            },
        }
    }
}

/// The accounts after a settlement that showed `side` and paid `payout` from
/// the vault into the wager balance: the record is idle again.
pub open spec fn settled(pre: SettleFlip, side: CoinSide, payout: u64) -> SettleFlip {
    SettleFlip {
        player_stats: PlayerStats {
            randomness_account: None,
            random_guess_result: Some(side),
            current_guess: None,
            wager_balance: (pre.player_stats.wager_balance + payout) as u64,
            wagered_amount: 0,
            commit_slot: 0,
            ..pre.player_stats
        },
        escrow: EscrowVault { lamports: (pre.escrow.lamports - payout) as u64, ..pre.escrow },
        ..pre
    }
}

/// How settling relates the accounts before and after, and the result.
pub open spec fn settle_post(
    pre: SettleFlip,
    post: SettleFlip,
    request: Option<RandomnessView>,
    r: Result<u64, CoinFlipError>,
) -> bool {
    &&& r == settle_result(pre, request)
    &&& r is Ok ==> post == settled(pre, revealed_side(request->0), r->Ok_0)
    &&& r is Err ==> post == pre
}

/// Settles the record's commitment, given the request already read out of the
/// accounts' randomness account. Returns the payout.
pub fn settle_flip_with_request(ctx: &mut SettleFlip, request: Option<RandomnessSnapshot>) -> (r: Result<
    u64,
    CoinFlipError,
>)
    ensures
        settle_post(*old(ctx), *final(ctx), request_view(request), r),
        old(ctx).player_stats.wf() ==> final(ctx).player_stats.wf(),
{
    if !ctx.user.same_as(&ctx.player_stats.allowed_user) {
        return Err(CoinFlipError::Unauthorized);
    }
    let matches = match &ctx.player_stats.randomness_account {
        Some(k) => k.same_as(&ctx.randomness_account_data.key),
        None => false,
    };
    if !matches {
        return Err(CoinFlipError::RandomnessAccountMismatch);
    }
    let s = match request {
        None => {
            return Err(CoinFlipError::InvalidRandomnessData);
        },
        Some(s) => s,
    };
    if s.seed_slot != ctx.player_stats.commit_slot {
        return Err(CoinFlipError::RandomnessExpired);
    }
    if s.reveal_slot != ctx.clock_slot {
        return Err(CoinFlipError::RandomnessNotResolved);
    }
    let side = flip_outcome(s.value[0]);
    let won = match ctx.player_stats.current_guess {
        Some(g) => g == side,
        None => false,
    };
    let mut payout: u64 = 0;
    if won {
        let wagered = ctx.player_stats.wagered_amount as u128;
        let needed: u128 = 2 * wagered + ctx.escrow.rent_reserve as u128;
        if (ctx.escrow.lamports as u128) < needed {
            return Err(CoinFlipError::EscrowFundError);
        }
        payout = (2 * wagered) as u64;
        if ctx.player_stats.wager_balance > u64::MAX - payout {
            return Err(CoinFlipError::BalanceOverflow);
        }
        ctx.escrow.lamports = ctx.escrow.lamports - payout;
        ctx.player_stats.wager_balance = ctx.player_stats.wager_balance + payout;
    }
    ctx.player_stats.wagered_amount = 0;
    ctx.player_stats.current_guess = None;
    ctx.player_stats.random_guess_result = Some(side);
    ctx.player_stats.randomness_account = None;
    ctx.player_stats.commit_slot = 0;
    Ok(payout)
}

/// Settles the record's commitment against the accounts' randomness account:
/// the first byte of the revealed value picks the side (even: heads), a right
/// guess is paid twice the wager from the vault, and the record is idle again.
/// Returns the payout.
pub fn settle_flip(ctx: &mut SettleFlip) -> (r: Result<u64, CoinFlipError>)
    ensures
        settle_post(
            *old(ctx),
            *final(ctx),
            randomness_request_of(old(ctx).randomness_account_data.data@),
            r,
        ),
        r is Ok ==> {
            &&& !final(ctx).player_stats.is_committed()
            &&& final(ctx).player_stats.wagered_amount == 0
            &&& final(ctx).player_stats.current_guess is None
            &&& final(ctx).player_stats.commit_slot == 0
            &&& (r->Ok_0 == 0 || r->Ok_0 == 2 * old(ctx).player_stats.wagered_amount)
            &&& final(ctx).player_stats.wager_balance == old(ctx).player_stats.wager_balance + r->Ok_0
            &&& final(ctx).escrow.lamports == old(ctx).escrow.lamports - r->Ok_0
        },
        old(ctx).player_stats.wf() ==> final(ctx).player_stats.wf(),
{
    let request = read_randomness(&ctx.randomness_account_data.data);
    settle_flip_with_request(ctx, request)
}

/// The accounts that closing a record reads.
#[derive(Clone, Copy, Debug)]
pub struct CloseAccount {
    pub signer: Key,
    pub player_stats: PlayerStats,
}

/// The outcome of closing a record: only its owner may, and only while idle,
/// with nothing wagered.
pub open spec fn close_result(ctx: CloseAccount) -> Result<(), CoinFlipError> {
    if ctx.signer != ctx.player_stats.allowed_user {
        Err(CoinFlipError::Unauthorized)
    } else if ctx.player_stats.wagered_amount > 0 {
        Err(CoinFlipError::WagerInProgress)
    } else {
        Ok(())
    }
}

/// Decides whether the record may be closed: its owner asks and no wager is in
/// flight, so that no escrowed funds lose their record.
pub fn close_account(ctx: &CloseAccount) -> (r: Result<(), CoinFlipError>)
    ensures
        r == close_result(*ctx),
{
    if !ctx.signer.same_as(&ctx.player_stats.allowed_user) {
        return Err(CoinFlipError::Unauthorized);
    }
    if ctx.player_stats.wagered_amount > 0 {
        return Err(CoinFlipError::WagerInProgress);
    }
    Ok(())
}

} // verus!
