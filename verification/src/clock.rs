//! The reference pair and the projection of wall-clock time from it.

use vstd::prelude::*;

verus! {

/// Counter ticks (milliseconds) that make up one second.
pub const MILLIS_PER_SECOND: u64 = 1000;

/// The wall-clock reading reported by the time server, paired with the
/// reading of the monotonic counter at the moment the reply arrived.
#[derive(Clone, Copy, Debug, PartialEq, Eq, Structural)]
pub struct ReferenceTime {
    /// Seconds since the Unix epoch, as reported by the server.
    pub wall_clock_seconds: u32,
    /// Milliseconds since boot when the reply was received.
    pub monotonic_at_capture: u64,
}

/// Whole seconds that lie between the capture of `reference` and the counter
/// reading `monotonic_now`.
pub open spec fn elapsed_seconds(reference: ReferenceTime, monotonic_now: int) -> int {
    (monotonic_now - reference.monotonic_at_capture) / 1000
}

/// The wall-clock time, in seconds since the Unix epoch and shifted by the
/// zone offset, that corresponds to the counter reading `monotonic_now`.
pub open spec fn projected_seconds(
    reference: ReferenceTime,
    monotonic_now: int,
    zone_offset_seconds: int,
) -> int {
    reference.wall_clock_seconds + elapsed_seconds(reference, monotonic_now) + zone_offset_seconds
}

/// Whether the projection is defined for this counter reading: the counter
/// has not run backwards and the result is a `u32`.
pub open spec fn projection_defined(
    reference: ReferenceTime,
    monotonic_now: int,
    zone_offset_seconds: int,
) -> bool {
    &&& reference.monotonic_at_capture <= monotonic_now
    &&& 0 <= projected_seconds(reference, monotonic_now, zone_offset_seconds) <= u32::MAX
}

/// Records the reference pair from a validated reply.
pub fn capture(reply_seconds: u32, monotonic_now: u64) -> (reference: ReferenceTime)
    ensures
        reference.wall_clock_seconds == reply_seconds,
        reference.monotonic_at_capture == monotonic_now,
{
    ReferenceTime { wall_clock_seconds: reply_seconds, monotonic_at_capture: monotonic_now }
}

/// Projects the reference onto the counter reading `monotonic_now`.
///
/// The counter must not have run backwards since the capture, and the
/// projected time must be representable in a `u32`; `try_project` tests both.
pub fn project(
    reference: ReferenceTime,
    monotonic_now: u64,
    zone_offset_seconds: i32,
) -> (projected: u32)
    requires
        projection_defined(reference, monotonic_now as int, zone_offset_seconds as int),
    ensures
        projected == projected_seconds(reference, monotonic_now as int, zone_offset_seconds as int),
        zone_offset_seconds >= 0 ==> projected >= reference.wall_clock_seconds,
{
    let elapsed: u64 = (monotonic_now - reference.monotonic_at_capture) / MILLIS_PER_SECOND;
    let total: i64 = reference.wall_clock_seconds as i64 + elapsed as i64 + zone_offset_seconds as i64;
    total as u32
}

/// Projects the reference onto `monotonic_now` where that is defined, and
/// returns `None` where the counter ran backwards or the result leaves `u32`.
pub fn try_project(
    reference: ReferenceTime,
    monotonic_now: u64,
    zone_offset_seconds: i32,
) -> (projected: Option<u32>)
    ensures
        projected is Some <==> projection_defined(
            reference,
            monotonic_now as int,
            zone_offset_seconds as int,
        ),
        projected matches Some(p) ==> p == projected_seconds(
            reference,
            monotonic_now as int,
            zone_offset_seconds as int,
        ),
{
    if monotonic_now < reference.monotonic_at_capture {
        return None;
    }
    let elapsed: u64 = (monotonic_now - reference.monotonic_at_capture) / MILLIS_PER_SECOND;
    let total: i64 = reference.wall_clock_seconds as i64 + elapsed as i64 + zone_offset_seconds as i64;
    if 0 <= total && total <= u32::MAX as i64 {
        Some(total as u32)
    } else {
        None
    }
}

/// The projection never runs backwards: a later counter reading gives a
/// wall-clock time that is at least as late.
pub proof fn lemma_projection_monotonic(
    reference: ReferenceTime,
    earlier: u64,
    later: u64,
    zone_offset_seconds: i32,
)
    requires
        reference.monotonic_at_capture <= earlier <= later,
    ensures
        projected_seconds(reference, earlier as int, zone_offset_seconds as int)
            <= projected_seconds(reference, later as int, zone_offset_seconds as int),
{
}

/// With no time elapsed and no zone offset the projection is the captured
/// wall-clock value itself.
pub proof fn lemma_projection_at_capture(reference: ReferenceTime)
    ensures
        projected_seconds(reference, reference.monotonic_at_capture as int, 0)
            == reference.wall_clock_seconds,
{
}

/// With a zone offset that is not negative, the projected time is never
/// earlier than the captured wall-clock value.
pub proof fn lemma_projection_not_before_reference(
    reference: ReferenceTime,
    monotonic_now: u64,
    zone_offset_seconds: i32,
)
    requires
        reference.monotonic_at_capture <= monotonic_now,
        zone_offset_seconds >= 0,
    ensures
        projected_seconds(reference, monotonic_now as int, zone_offset_seconds as int)
            >= reference.wall_clock_seconds,
{
}

/// A thousand counter ticks later the projected time is exactly one second
/// later, whatever fraction of a second had already passed.
pub proof fn lemma_second_per_thousand_ticks(
    reference: ReferenceTime,
    monotonic_now: u64,
    zone_offset_seconds: i32,
)
    ensures
        projected_seconds(reference, monotonic_now + 1000, zone_offset_seconds as int)
            == projected_seconds(reference, monotonic_now as int, zone_offset_seconds as int) + 1,
{
}

} // verus!
