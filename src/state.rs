//! Accounts, identities and the per-player wager record.
use vstd::prelude::*;

verus! {

broadcast use vstd::array::group_array_axioms;

/// A 32-byte ledger identity (a player, a randomness request, an account).
#[derive(Clone, Copy, Debug, PartialEq, Eq)]
pub struct Key {
    pub bytes: [u8; 32],
}

impl Key {
    /// Whether two identities are the same.
    pub fn same_as(&self, other: &Key) -> (r: bool)
        ensures
            r == (*self == *other),
    {
        let mut i: usize = 0;
        while i < 32
            invariant
                0 <= i <= 32,
                forall|j: int| 0 <= j < i ==> self.bytes@[j] == other.bytes@[j],
            decreases 32 - i,
        {
            if self.bytes[i] != other.bytes[i] {
                return false;
            }
            i = i + 1;
        }
        assert(self.bytes =~= other.bytes);
        true
    }

    /// The null identity: all bytes zero. It names no request.
    pub open spec fn is_null(&self) -> bool {
        forall|j: int| 0 <= j < 32 ==> self.bytes@[j] == 0
    }

    /// Whether this is the null identity.
    pub fn null(&self) -> (r: bool)
        ensures
            r == self.is_null(),
    {
        let mut i: usize = 0;
        while i < 32
            invariant
                0 <= i <= 32,
                forall|j: int| 0 <= j < i ==> self.bytes@[j] == 0,
            decreases 32 - i,
        {
            if self.bytes[i] != 0 {
                return false;
            }
            i = i + 1;
        }
        true
    }
}

/// One face of the coin: the two outcomes of a flip and the two guesses.
#[derive(PartialEq, Eq, Structural, Clone, Copy, Debug)]
pub enum CoinSide {
    Heads,
    Tails,
}

/// The per-player wager record.
#[derive(Clone, Copy, Debug, PartialEq, Eq)]
pub struct PlayerStats {
    /// The only identity allowed to act on this record.
    pub allowed_user: Key,
    /// The randomness request of the active commitment; `None` when idle.
    pub randomness_account: Option<Key>,
    /// The side shown by the last settled flip.
    pub random_guess_result: Option<CoinSide>,
    /// The guess of the active commitment; `None` when idle.
    pub current_guess: Option<CoinSide>,
    /// Funds available to wager.
    pub wager_balance: u64,
    /// Funds locked in the active commitment; zero when idle.
    pub wagered_amount: u64,
    /// The derivation nonce of the record's address, fixed at creation.
    pub bump: u8,
    /// The target slot of the active commitment's request; zero when idle.
    pub commit_slot: u64,
}

impl PlayerStats {
    /// Whether a commitment is waiting to be settled.
    pub open spec fn is_committed(&self) -> bool {
        self.randomness_account is Some
    }

    /// An idle record holds no commitment fields; a committed one has a
    /// guess and a positive wager. So a wager is positive exactly while a
    /// request is pending.
    pub open spec fn wf(&self) -> bool {
        &&& !self.is_committed() ==> {
            &&& self.wagered_amount == 0
            &&& self.current_guess is None
            &&& self.commit_slot == 0
        }
        &&& self.is_committed() ==> {
            &&& self.current_guess is Some
            &&& self.wagered_amount > 0
        }
    }

    /// Whether a commitment is waiting to be settled.
    pub fn committed(&self) -> (r: bool)
        ensures
            r == self.is_committed(),
    {
        self.randomness_account.is_some()
    }
}

/// The shared escrow account that holds every wager in flight.
#[derive(Clone, Copy, Debug, PartialEq, Eq)]
pub struct EscrowVault {
    /// What the vault holds.
    pub lamports: u64,
    /// What the vault must keep to stay alive; never paid out.
    pub rent_reserve: u64,
}

/// Why an operation was refused. A refused operation changes nothing.
#[derive(PartialEq, Eq, Structural, Clone, Copy, Debug)]
pub enum CoinFlipError {
    /// The wallet cannot cover the amount to fund.
    InsufficientBalance,
    /// The request's target slot has already passed.
    RandomnessAlreadyRevealed,
    /// The amount to wager exceeds the record's wager balance.
    InsufficientUserWagerBalance,
    /// The amount to wager is zero.
    ZeroWager,
    /// The request is not the one recorded at commit time, or a commitment
    /// names a request other than the account given, or the null identity.
    RandomnessAccountMismatch,
    /// The request's target slot no longer matches the commitment's.
    RandomnessExpired,
    /// The oracle has no value for the current slot.
    RandomnessNotResolved,
    /// The vault cannot cover a winning payout above its reserve.
    EscrowFundError,
    /// The caller is not the record's owner.
    Unauthorized,
    /// The request's account does not hold a randomness request.
    InvalidRandomnessData,
    /// A credit would take a balance past the largest amount.
    BalanceOverflow,
    /// The record still holds a commitment.
    WagerInProgress,
}

} // verus!
