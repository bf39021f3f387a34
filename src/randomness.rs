//! Randomness requests as the oracle's account holds them, and the rule that
//! turns a revealed value into a coin side.
use vstd::prelude::*;
use switchboard_on_demand::RandomnessAccountData;
use crate::state::CoinSide;

verus! {

/// Bytes of the account tag that precedes a randomness request's fields.
pub const RANDOMNESS_TAG_LEN: usize = 8;

/// Length of a randomness account: the tag and the request's fields.
pub const RANDOMNESS_ACCOUNT_LEN: usize = 408;

/// The tag that marks an account as a randomness request.
pub open spec fn randomness_tag() -> Seq<u8> {
    seq![10u8, 66u8, 229u8, 135u8, 220u8, 239u8, 217u8, 114u8]
}

/// Offsets, in the account's bytes, of the fields that a wager reads.
pub open spec fn seed_slot_at() -> int { 104 }

pub open spec fn reveal_slot_at() -> int { 144 }

pub open spec fn value_at() -> int { 152 }

/// The little-endian unsigned integer held in `data[at..at + 8]`.
pub open spec fn le_u64(data: Seq<u8>, at: int) -> u64 {
    (data[at] as int
        + 0x100 * data[at + 1] as int
        + 0x1_0000 * data[at + 2] as int
        + 0x100_0000 * data[at + 3] as int
        + 0x1_0000_0000 * data[at + 4] as int
        + 0x100_0000_0000 * data[at + 5] as int
        + 0x1_0000_0000_0000 * data[at + 6] as int
        + 0x100_0000_0000_0000 * data[at + 7] as int) as u64
}

/// Whether `data` is long enough for a randomness request and starts with its tag.
pub open spec fn randomness_layout_ok(data: Seq<u8>) -> bool {
    &&& data.len() >= RANDOMNESS_ACCOUNT_LEN
    &&& data.subrange(0, RANDOMNESS_TAG_LEN as int) == randomness_tag()
}

/// What a wager reads of a randomness request.
pub struct RandomnessView {
    /// The slot the request was seeded at: its target point.
    pub seed_slot: u64,
    /// The slot at which the oracle revealed the value.
    pub reveal_slot: u64,
    /// The revealed value.
    pub value: Seq<u8>,
}

/// The request that the bytes of a randomness account describe.
pub open spec fn randomness_view_of(data: Seq<u8>) -> RandomnessView {
    RandomnessView {
        seed_slot: le_u64(data, seed_slot_at()),
        reveal_slot: le_u64(data, reveal_slot_at()),
        value: data.subrange(value_at(), value_at() + 32),
    }
}

/// A randomness request read out of its account.
pub struct RandomnessSnapshot {
    pub seed_slot: u64,
    pub reveal_slot: u64,
    pub value: [u8; 32],
}

impl View for RandomnessSnapshot {
    type V = RandomnessView;

    open spec fn view(&self) -> RandomnessView {
        RandomnessView { seed_slot: self.seed_slot, reveal_slot: self.reveal_slot, value: self.value@ }
    }
}

/// The request that an account's bytes hold, if they hold one.
pub open spec fn randomness_request_of(data: Seq<u8>) -> Option<RandomnessView> {
    if randomness_layout_ok(data) {
        Some(randomness_view_of(data))
    } else {
        None
    }
}

/// What a request read out of its account shows to a wager.
pub open spec fn request_view(request: Option<RandomnessSnapshot>) -> Option<RandomnessView> {
    match request {
        Some(s) => Some(s@),
        None => None,
    }
}

/// Relies on switchboard_on_demand's `RandomnessAccountData::parse`: it refuses
/// data that lacks the tag, and otherwise views the bytes after the tag as the
/// `repr(C)`, plain-old-data request, whose `seed_slot`, `reveal_slot` and
/// `value` stand at the offsets above (read little-endian, as on the ledger's
/// targets). The bytes are copied into a buffer of `u64` words (through
/// bytemuck's `cast_slice_mut`, as anchor_lang re-exports it), so the view is
/// aligned and `parse`'s alignment check passes.
#[verifier::external_body]
fn parse_randomness(data: &[u8]) -> (r: Option<RandomnessSnapshot>)
    requires
        data@.len() == RANDOMNESS_ACCOUNT_LEN,
    ensures
        r is Some <==> randomness_layout_ok(data@),
        r is Some ==> r->0@ == randomness_view_of(data@),
{
    let mut words: Vec<u64> = vec![0u64; data.len()];
    let bytes: &mut [u8] = anchor_lang::__private::bytemuck::cast_slice_mut(&mut words[..]);
    let bytes = &mut bytes[..data.len()];
    bytes.copy_from_slice(data);
    let cell = std::cell::RefCell::new(bytes);
    let r = match RandomnessAccountData::parse(cell.borrow()) {
        Ok(d) => Some(RandomnessSnapshot { seed_slot: d.seed_slot, reveal_slot: d.reveal_slot, value: d.value }),
        Err(_) => None,
    };
    r
}

/// Reads the randomness request held in an account's bytes, if they hold one.
pub fn read_randomness(data: &Vec<u8>) -> (r: Option<RandomnessSnapshot>)
    ensures
        request_view(r) == randomness_request_of(data@),
{
    if data.len() < RANDOMNESS_ACCOUNT_LEN {
        return None;
    }
    let account = vstd::slice::slice_subrange(data.as_slice(), 0, RANDOMNESS_ACCOUNT_LEN);
    let r = parse_randomness(account);
    assert(account@.subrange(0, RANDOMNESS_TAG_LEN as int) =~= data@.subrange(0, RANDOMNESS_TAG_LEN as int));
    assert(account@.subrange(value_at(), value_at() + 32) =~= data@.subrange(value_at(), value_at() + 32));
    assert(randomness_view_of(account@) == randomness_view_of(data@));
    r
}

/// The side a revealed byte shows: an even byte is heads, an odd one tails.
pub open spec fn outcome_of(byte: u8) -> CoinSide {
    if byte % 2 == 0 {
        CoinSide::Heads
    } else {
        CoinSide::Tails
    }
}

/// The side shown by the first byte of a revealed value.
pub fn flip_outcome(byte: u8) -> (r: CoinSide)
    ensures
        r == outcome_of(byte),
{
    if byte % 2 == 0 {
        CoinSide::Heads
    } else {
        CoinSide::Tails
    }
}

} // verus!
