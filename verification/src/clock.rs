//! The rotation clock: elapsed time to angle.

use vstd::prelude::*;
use crate::error::SceneError;

verus! {

/// Milliseconds in which the field turns once.
pub const PERIOD_MILLIS: u64 = 60_000;

/// One full turn, 2π, in microradians (rounded down).
pub const TURN_MICRORADIANS: u64 = 6_283_185;

/// Milliseconds between two ticks of the animation, unless the host chooses
/// another cadence.
pub const TICK_MILLIS: u64 = 10;

/// A moment on the host's monotonic clock, in milliseconds since an origin
/// that the host fixes once.
#[derive(Clone, Copy, Debug, PartialEq, Eq, Structural)]
pub struct Timestamp {
    pub millis: u64,
}

/// An angle in microradians. Which way it turns is for the host's rotation
/// to say. It is not reduced modulo a full turn.
#[derive(Clone, Copy, Debug, PartialEq, Eq, Structural)]
pub struct Angle {
    pub microradians: u128,
}

/// The angle, in microradians, that the field has turned through after
/// `elapsed_millis`: a full turn every [`PERIOD_MILLIS`], rounded down to a
/// whole microradian.
pub open spec fn rotation(elapsed_millis: nat) -> nat {
    elapsed_millis * (TURN_MICRORADIANS as nat) / (PERIOD_MILLIS as nat)
}

/// The angle turned through between `start` and `now`.
pub open spec fn angle_between(start: Timestamp, now: Timestamp) -> Angle
    recommends
        start.millis <= now.millis,
{
    Angle { microradians: rotation((now.millis - start.millis) as nat) as u128 }
}

impl Angle {
    /// The angle less its whole turns: what is left lies in `[0, 2π)`, for a
    /// host whose rotation wants it so.
    pub fn within_a_turn(&self) -> (rest: Angle)
        ensures
            rest.microradians == self.microradians % (TURN_MICRORADIANS as u128),
            rest.microradians < TURN_MICRORADIANS,
    {
        Angle { microradians: self.microradians % (TURN_MICRORADIANS as u128) }
    }
}

impl Timestamp {
    /// The moment `secs` whole seconds and `subsec_millis` milliseconds after
    /// the origin, or `None` if that many milliseconds do not fit in 64 bits.
    pub fn from_parts(secs: u64, subsec_millis: u32) -> (stamp: Option<Timestamp>)
        ensures
            secs * 1000 + subsec_millis <= u64::MAX ==> stamp == Some(
                Timestamp { millis: (secs * 1000 + subsec_millis) as u64 },
            ),
            secs * 1000 + subsec_millis > u64::MAX ==> stamp is None,
    {
        match secs.checked_mul(1000) {
            Some(whole) => match whole.checked_add(subsec_millis as u64) {
                Some(millis) => Some(Timestamp { millis }),
                None => None,
            },
            None => None,
        }
    }
}

/// The angle that the field has turned through at `now`, when it began to
/// turn at `start`. A `now` before `start` is refused.
pub fn angle(start: Timestamp, now: Timestamp) -> (result: Result<Angle, SceneError>)
    ensures
        start.millis <= now.millis ==> result == Ok::<Angle, SceneError>(angle_between(start, now)),
        now.millis < start.millis ==> result == Err::<Angle, SceneError>(
            SceneError::InvalidTimestamp,
        ),
{
    if now.millis < start.millis {
        return Err(SceneError::InvalidTimestamp);
    }
    let elapsed: u64 = now.millis - start.millis;
    assert(elapsed * TURN_MICRORADIANS <= u64::MAX * 6_283_185) by (nonlinear_arith)
        requires
            elapsed <= u64::MAX,
            TURN_MICRORADIANS == 6_283_185,
    ;
    let turned: u128 = (elapsed as u128) * (TURN_MICRORADIANS as u128) / (PERIOD_MILLIS as u128);
    Ok(Angle { microradians: turned })
}

/// At the start nothing has turned.
pub proof fn rotation_starts_at_zero(start: Timestamp)
    ensures
        rotation(0) == 0,
        angle_between(start, start).microradians == 0,
{
}

/// The angle never decreases as time goes on.
pub proof fn rotation_is_monotone(earlier: nat, later: nat)
    requires
        earlier <= later,
    ensures
        rotation(earlier) <= rotation(later),
{
}

/// For a fixed start, a later `now` gives an angle at least as large.
pub proof fn angle_is_monotone(start: Timestamp, earlier: Timestamp, later: Timestamp)
    requires
        start.millis <= earlier.millis <= later.millis,
    ensures
        angle_between(start, earlier).microradians <= angle_between(start, later).microradians,
{
}

/// Whatever 64 bits of milliseconds hold, the angle fits in 128 bits.
pub proof fn rotation_fits(elapsed_millis: nat)
    requires
        elapsed_millis <= u64::MAX,
    ensures
        rotation(elapsed_millis) <= u128::MAX,
{
}

/// The angle grows with every millisecond, by a thousandth of what a second
/// adds, give or take the rounding: a tick shorter than a second is not lost.
pub proof fn rotation_is_smooth(elapsed_millis: nat)
    ensures
        rotation(elapsed_millis) + 104 <= rotation(elapsed_millis + 1) <= rotation(elapsed_millis)
            + 105,
        rotation(elapsed_millis) + 104_719 <= rotation(elapsed_millis + 1000) <= rotation(
            elapsed_millis,
        ) + 104_720,
{
}

/// Without its whole turns the angle depends only on how far into the
/// current period the clock is: the field stands after every period exactly
/// where it stood before.
pub proof fn rotation_repeats_every_period(elapsed_millis: nat)
    ensures
        rotation(elapsed_millis) % (TURN_MICRORADIANS as nat) == rotation(
            elapsed_millis % (PERIOD_MILLIS as nat),
        ),
{
}

/// One period is one full turn, and every further period adds exactly one.
pub proof fn rotation_period(elapsed_millis: nat)
    ensures
        rotation(PERIOD_MILLIS as nat) == TURN_MICRORADIANS,
        rotation(elapsed_millis + PERIOD_MILLIS as nat) == rotation(elapsed_millis)
            + TURN_MICRORADIANS,
{
}

} // verus!
