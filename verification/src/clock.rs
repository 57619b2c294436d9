//! Time as the pump sees it: instants and durations are counts of
//! nanoseconds on the driver's monotonic clock, media time is a count of
//! microseconds, and what goes on the wire is a count of ticks of the 90 kHz
//! media clock.
use str0m::media::{Frequency, MediaTime};
use vstd::prelude::*;

verus! {

/// The duration of one frame, in the milliseconds the pipeline counts in.
pub const FRAME_DURATION_MS: u64 = 10;

/// The duration of one frame, in the microseconds a track counts in.
pub const FRAME_DURATION_MICROS: u64 = 10_000;

/// The time left from `now` until `deadline`; zero when the deadline has
/// passed or is now.
pub open spec fn remaining_spec(deadline: u64, now: u64) -> u64 {
    if deadline > now {
        (deadline - now) as u64
    } else {
        0
    }
}

/// The time left from `now` until `deadline`; zero when the deadline has
/// passed or is now.
pub fn remaining(deadline: u64, now: u64) -> (left: u64)
    ensures
        left == remaining_spec(deadline, now),
{
    if deadline > now {
        deadline - now
    } else {
        0
    }
}

/// `micros` microseconds in whole ticks of the 90 kHz media clock, rounded
/// down.
pub open spec fn rtp_ticks(micros: u64) -> int {
    micros as int * 90_000 / 1_000_000
}

/// Media time never runs backwards through the change of clock, and the
/// tick count fits the integer it is carried in.
pub proof fn lemma_rtp_ticks_monotone(a: u64, b: u64)
    requires
        a <= b,
    ensures
        0 <= rtp_ticks(a) <= rtp_ticks(b) <= u64::MAX,
{
}

/// `str0m::media::MediaTime::rebase`, applied to a count of microseconds
/// with the 90 kHz frequency as the new denominator. The engine multiplies
/// the count by the new frequency and divides by the old one, in 128 bits
/// and rounding toward zero; the contract states that quotient.
#[verifier::external_body]
fn rebase_micros(micros: u64) -> (ticks: u64)
    ensures
        ticks == rtp_ticks(micros),
{
    MediaTime::from_micros(micros).rebase(Frequency::NINETY_KHZ).numer()
}

/// The timestamp that a frame at media time `micros` carries on the wire.
pub fn rtp_timestamp(micros: u64) -> (ticks: u64)
    ensures
        ticks == rtp_ticks(micros),
{
    rebase_micros(micros)
}

} // verus!
