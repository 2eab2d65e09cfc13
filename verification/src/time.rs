//! Time function set: coarse wall-clock reads and the process-wide
//! clock-offset correction learned from the protocol's own time resource.

use vstd::prelude::*;

verus! {

/// A signed 64-bit protocol time value, in whole seconds since the Unix epoch.
#[derive(Clone, Copy, PartialEq, Eq, Structural, Debug)]
pub struct Int64(pub i64);

impl Int64 {
    /// The raw seconds value.
    pub fn get(&self) -> (r: i64)
        ensures
            r == self.0,
    {
        self.0
    }
}

/// The slice of the protocol's time resource that the offset computation
/// reads: the reporting source's idea of the current time.
#[derive(Clone, Copy, PartialEq, Eq, Structural, Debug)]
pub struct Time {
    /// The current time, as reported by a trusted source.
    pub current_time: Int64,
}

/// How a clock operation can fail.
#[derive(Clone, Copy, PartialEq, Eq, Structural, Debug)]
pub enum ClockError {
    /// The platform clock reported a time before the epoch, or one that does
    /// not fit a signed 64-bit count of seconds.  Callers treat this as fatal.
    BeforeEpoch,
    /// The offset arithmetic left the representable range.
    OutOfRange,
}

/// The process-wide clock-offset cell: a single signed correction term,
/// initialized to zero, replaced whole by each update.  Readers add it to the
/// wall clock; they never see a partially written value because every write
/// goes through [`update_time_offset`], which stores one complete `i64`.
pub struct TimeOffset {
    offset: i64,
}

impl View for TimeOffset {
    type V = int;

    closed spec fn view(&self) -> int {
        self.offset as int
    }
}

/// The correction stored after a trusted sample: sample minus local time.
pub open spec fn offset_spec(sample: int, now: int) -> int {
    sample - now
}

/// A corrected read: local time plus the stored correction.
pub open spec fn corrected_spec(now: int, offset: int) -> int {
    now + offset
}

impl TimeOffset {
    /// A fresh cell with no correction applied.
    pub fn new() -> (r: Self)
        ensures
            r@ == 0,
    {
        TimeOffset { offset: 0 }
    }
}

/// Relies on `std::time::SystemTime::now` and `duration_since(UNIX_EPOCH)`:
/// returns the whole seconds since the Unix epoch, or `None` when the system
/// clock reads before the epoch or beyond what an `i64` holds.
#[verifier::external_body]
fn wall_clock_seconds() -> (r: Option<i64>)
    ensures
        r matches Some(s) ==> s >= 0,
{
    match std::time::SystemTime::now().duration_since(std::time::UNIX_EPOCH) {
        Ok(d) => i64::try_from(d.as_secs()).ok(),
        Err(_) => None,
    }
}

/// The current wall-clock time, in whole seconds since the epoch.
/// Fails only when the platform clock reports a time before the epoch.
pub fn current_time() -> (r: Result<Int64, ClockError>)
    ensures
        r matches Ok(t) ==> t.0 >= 0,
        r matches Err(e) ==> e == ClockError::BeforeEpoch,
{
    match wall_clock_seconds() {
        Some(s) => Ok(Int64(s)),
        None => Err(ClockError::BeforeEpoch),
    }
}

/// The correction a sample calls for: `sample - now`, or `None` when the
/// difference leaves the `i64` range.
pub fn offset_from_sample(sample: Int64, now: Int64) -> (r: Option<i64>)
    ensures
        r matches Some(o) ==> o == offset_spec(sample.0 as int, now.0 as int),
        r is None <==> !(i64::MIN <= sample.0 - now.0 <= i64::MAX),
{
    sample.0.checked_sub(now.0)
}

/// A corrected timestamp: `now + offset`, or `None` when the sum leaves the
/// `i64` range.
pub fn corrected_time(now: Int64, offset: i64) -> (r: Option<Int64>)
    ensures
        r matches Some(t) ==> t.0 == corrected_spec(now.0 as int, offset as int),
        r is None <==> !(i64::MIN <= now.0 + offset <= i64::MAX),
{
    match now.0.checked_add(offset) {
        Some(s) => Some(Int64(s)),
        None => None,
    }
}

/// Given a trusted time sample, recompute the process-wide offset as
/// `sample.current_time - now` and store it, replacing any prior value.
/// On failure the stored offset is left as it was.
pub fn update_time_offset(off: &mut TimeOffset, time: Time) -> (r: Result<(), ClockError>)
    ensures
        r matches Ok(u) ==> exists|now: int|
            0 <= now && final(off)@ == offset_spec(time.current_time.0 as int, now),
        r is Err ==> final(off)@ == old(off)@,
{
    match current_time() {
        Ok(now) => {
            match offset_from_sample(time.current_time, now) {
                Some(o) => {
                    off.offset = o;
                    proof {
                        assert(0 <= now.0 as int && off@ == offset_spec(
                            time.current_time.0 as int,
                            now.0 as int,
                        ));
                    }
                    Ok(())
                },
                None => Err(ClockError::OutOfRange),
            }
        },
        Err(e) => Err(e),
    }
}

/// The current wall-clock time with the stored correction applied:
/// `now() + offset`.
pub fn current_time_with_offset(off: &TimeOffset) -> (r: Result<Int64, ClockError>)
    ensures
        r matches Ok(t) ==> exists|now: int| 0 <= now && t.0 == corrected_spec(now, off@),
{
    match current_time() {
        Ok(now) => {
            match corrected_time(now, off.offset) {
                Some(t) => {
                    proof {
                        assert(0 <= now.0 as int && t.0 == corrected_spec(now.0 as int, off@));
                    }
                    Ok(t)
                },
                None => Err(ClockError::OutOfRange),
            }
        },
        Err(e) => Err(e),
    }
}

/// Law: a corrected read taken after an offset update returns the sample
/// advanced by exactly however far the wall clock moved between the update's
/// own read and the corrected read; in particular, a read taken within one
/// clock tick of the update is within one tick of the sample.
pub proof fn lemma_update_then_corrected(sample: int, now1: int, now2: int)
    ensures
        corrected_spec(now2, offset_spec(sample, now1)) == sample + (now2 - now1),
        now1 <= now2 <= now1 + 1 ==> sample <= corrected_spec(now2, offset_spec(sample, now1))
            <= sample + 1,
{
}

/// The decision inside the intermittent sleep loop: wake once the clock,
/// read after a tick of sleep, has passed the deadline (both in milliseconds
/// from a common base instant).
pub fn sleep_deadline_passed(now_ms: u64, deadline_ms: u64) -> (r: bool)
    ensures
        r == (now_ms > deadline_ms),
{
    now_ms > deadline_ms
}

} // verus!
