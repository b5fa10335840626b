//! Core of a token-mining instruction: a caller may claim a fixed reward of
//! base units once per cooldown window. A per-miner record keeps the
//! timestamp of the last successful claim; the host runtime supplies the
//! clock reading and performs the actual mint.

use vstd::prelude::*;

verus! {

/// Seconds that must elapse after a successful mine call before the next one
/// may succeed.
pub const COOLDOWN_SECONDS: i64 = 3600;

/// Base units of the token minted by each successful mine call.
pub const MINE_AMOUNT: u64 = 1_000_000;

/// Per-miner record: the Unix timestamp of the last successful mine call.
#[derive(Clone, Copy, Debug, PartialEq, Eq, Structural)]
pub struct MinerState {
    pub last_mined: i64,
}

/// The error conditions the instruction declares.
#[derive(Clone, Copy, Debug, PartialEq, Eq, Structural)]
pub enum ErrorCode {
    /// Declared but never raised by the mine instruction.
    InsufficientBalance,
    /// The cooldown window since the last successful mine call has not
    /// elapsed yet.
    MiningTooFrequent,
}

/// The cooldown has elapsed when at least `COOLDOWN_SECONDS` have passed
/// since `last_mined`. Stated over unbounded integers, so no clock reading
/// can make the comparison overflow.
pub open spec fn cooldown_elapsed(last_mined: i64, now: i64) -> bool {
    now - last_mined >= COOLDOWN_SECONDS
}

/// The miner record after a mine call at time `now`: advanced to `now` on
/// success, unchanged on failure.
pub open spec fn mine_next(state: MinerState, now: i64) -> MinerState {
    if cooldown_elapsed(state.last_mined, now) {
        MinerState { last_mined: now }
    } else {
        state
    }
}

/// The outcome of a mine call at time `now`: the amount to mint on success,
/// `MiningTooFrequent` on failure.
pub open spec fn mine_result(state: MinerState, now: i64) -> Result<u64, ErrorCode> {
    if cooldown_elapsed(state.last_mined, now) {
        Ok(MINE_AMOUNT)
    } else {
        Err(ErrorCode::MiningTooFrequent)
    }
}

/// The mine instruction's decision: given the host clock reading `now`,
/// succeed only if the cooldown has elapsed since the last successful call.
/// On success the returned amount is what the host must mint into the
/// caller's token account, and the record advances to `now`; on failure the
/// record is untouched and the call reports `MiningTooFrequent`.
pub fn mine(miner_state: &mut MinerState, now: i64) -> (r: Result<u64, ErrorCode>)
    ensures
        *final(miner_state) == mine_next(*old(miner_state), now),
        r == mine_result(*old(miner_state), now),
        cooldown_elapsed(old(miner_state).last_mined, now) ==> r
            == Ok::<u64, ErrorCode>(MINE_AMOUNT) && final(miner_state).last_mined == now,
        !cooldown_elapsed(old(miner_state).last_mined, now) ==> r
            == Err::<u64, ErrorCode>(ErrorCode::MiningTooFrequent) && *final(miner_state)
            == *old(miner_state),
{
    let elapsed: i128 = (now as i128) - (miner_state.last_mined as i128);
    if elapsed >= COOLDOWN_SECONDS as i128 {
        miner_state.last_mined = now;
        Ok(MINE_AMOUNT)
    } else {
        Err(ErrorCode::MiningTooFrequent)
    }
}

/// After a successful mine call at time `t`, every further call at a time
/// `t2` with `t2 - t < COOLDOWN_SECONDS` fails with `MiningTooFrequent` and
/// leaves the record unchanged: repeated immediate calls keep failing until
/// the cooldown has elapsed again.
pub proof fn lemma_repeat_too_soon(state: MinerState, t: i64, t2: i64)
    requires
        mine_result(state, t) is Ok,
        t2 - t < COOLDOWN_SECONDS,
    ensures
        mine_result(mine_next(state, t), t2) == Err::<u64, ErrorCode>(
            ErrorCode::MiningTooFrequent,
        ),
        mine_next(mine_next(state, t), t2) == mine_next(state, t),
{
}

/// `last_mined` is monotonically non-decreasing: no mine call, successful or
/// not, ever moves it backwards.
pub proof fn lemma_last_mined_monotonic(state: MinerState, now: i64)
    ensures
        mine_next(state, now).last_mined >= state.last_mined,
{
}

} // verus!
