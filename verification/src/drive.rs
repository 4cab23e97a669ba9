//! The integer side of the drive train: bounding the speed commands sent to
//! the drive servos, placing the steering servos about their straight-ahead
//! offsets, and reporting the outcome of a command sent to every wheel.
//! The geometry in floating point that comes before these steps is not here.
use vstd::prelude::*;

verus! {

/// The fastest rotation a drive servo is commanded, either way.
pub const MAX_RAW_SPEED: i16 = 1000;

/// The speed command actually sent for `raw_speed`: bounded to
/// `-MAX_RAW_SPEED ..= MAX_RAW_SPEED`.
pub open spec fn bounded_speed(raw_speed: i16) -> int {
    if raw_speed > MAX_RAW_SPEED {
        MAX_RAW_SPEED as int
    } else if raw_speed < -MAX_RAW_SPEED {
        -MAX_RAW_SPEED
    } else {
        raw_speed as int
    }
}

/// Bounding leaves every speed the servo takes as it is, and brings every
/// faster one to full speed in its own direction.
pub proof fn law_speed_bound_moves_only_excess(raw_speed: i16)
    ensures
        -1000 <= raw_speed <= 1000 ==> bounded_speed(raw_speed) == raw_speed,
        raw_speed > 1000 ==> bounded_speed(raw_speed) == 1000,
        raw_speed < -1000 ==> bounded_speed(raw_speed) == -1000,
{
}

/// Bounds a raw speed command to what the servo takes.
pub fn clamp_raw_speed(raw_speed: i16) -> (speed: i16)
    ensures
        speed == bounded_speed(raw_speed),
        -MAX_RAW_SPEED <= speed <= MAX_RAW_SPEED,
        -1000 <= raw_speed <= 1000 ==> speed == raw_speed,
        raw_speed > 1000 ==> speed == 1000,
        raw_speed < -1000 ==> speed == -1000,
{
    proof {
        law_speed_bound_moves_only_excess(raw_speed);
    }
    let mut speed = raw_speed;
    if speed > MAX_RAW_SPEED {
        speed = MAX_RAW_SPEED;
    }
    if speed < -MAX_RAW_SPEED {
        speed = -MAX_RAW_SPEED;
    }
    speed
}

/// The offset of a wheel's steering servo, or zero for a wheel that does
/// not steer.
pub open spec fn steer_offset(offset: Option<u16>) -> int {
    match offset {
        Some(o) => o as int,
        None => 0,
    }
}

/// The servo position for a steering angle of `raw` position units: `raw`
/// moved by the servo's straight-ahead offset, taken modulo 2^16 as the
/// servo's position field does.
pub fn steer_position(raw: isize, offset: Option<u16>) -> (position: u16)
    requires
        raw + steer_offset(offset) <= isize::MAX,
    ensures
        position == (raw + steer_offset(offset)) as u16,
{
    let mut position = raw;
    if let Some(o) = offset {
        position = position + o as isize;
    }
    position as u16
}

/// The outcome of sending one command to every wheel in turn: success when
/// every wheel succeeded, otherwise the failure of the last wheel that
/// failed.
pub open spec fn last_failure<E>(results: Seq<Result<(), E>>) -> Result<(), E>
    decreases results.len(),
{
    if results.len() == 0 {
        Ok(())
    } else if results.last() is Err {
        results.last()
    } else {
        last_failure(results.drop_last())
    }
}

/// The outcome of a command sent to every wheel is success exactly when
/// every wheel succeeded; otherwise it is the failure of the wheel that
/// failed last, after which every wheel succeeded.
pub proof fn law_last_failure_is_last_err<E>(results: Seq<Result<(), E>>)
    ensures
        last_failure(results) is Ok <==> forall|i: int| 0 <= i < results.len() ==> (#[trigger] results[i]) is Ok,
        last_failure(results) is Err ==> exists|k: int|
            0 <= k < results.len() && #[trigger] results[k] == last_failure(results) && forall|j: int|
                k < j < results.len() ==> (#[trigger] results[j]) is Ok,
    decreases results.len(),
{
    if results.len() > 0 {
        let rest = results.drop_last();
        law_last_failure_is_last_err(rest);
        if results.last() is Err {
            assert(results[results.len() - 1] == last_failure(results));
        } else {
            assert forall|i: int| 0 <= i < rest.len() implies results[i] == #[trigger] rest[i] by {}
            if last_failure(rest) is Err {
                let k = choose|k: int|
                    0 <= k < rest.len() && #[trigger] rest[k] == last_failure(rest) && forall|j: int|
                        k < j < rest.len() ==> (#[trigger] rest[j]) is Ok;
                assert(results[k] == last_failure(results));
                assert forall|j: int| k < j < results.len() implies (#[trigger] results[j]) is Ok by {
                    if j < rest.len() {
                        assert(rest[j] is Ok);
                    }
                }
            } else {
                assert forall|i: int| 0 <= i < results.len() implies (#[trigger] results[i]) is Ok by {
                    if i < rest.len() {
                        assert(rest[i] is Ok);
                    }
                }
            }
        }
    }
}

/// Reports the outcome of a command sent to every wheel, given the result
/// of each wheel in the order they were commanded.
pub fn last_error<E>(results: Vec<Result<(), E>>) -> (outcome: Result<(), E>)
    ensures
        outcome == last_failure(results@),
        outcome is Ok <==> forall|i: int| 0 <= i < results@.len() ==> (#[trigger] results@[i]) is Ok,
        outcome is Err ==> exists|k: int|
            0 <= k < results@.len() && #[trigger] results@[k] == outcome && forall|j: int|
                k < j < results@.len() ==> (#[trigger] results@[j]) is Ok,
{
    proof {
        law_last_failure_is_last_err(results@);
    }
    let mut rest = results;
    while rest.len() > 0
        invariant
            last_failure(rest@) == last_failure(results@),
            last_failure(results@) is Ok <==> forall|i: int|
                0 <= i < results@.len() ==> (#[trigger] results@[i]) is Ok,
            last_failure(results@) is Err ==> exists|k: int|
                0 <= k < results@.len() && #[trigger] results@[k] == last_failure(results@)
                    && forall|j: int| k < j < results@.len() ==> (#[trigger] results@[j]) is Ok,
        decreases rest@.len(),
    {
        let ghost before = rest@;
        let result = rest.pop().unwrap();
        assert(rest@ =~= before.drop_last());
        if result.is_err() {
            return result;
        }
    }
    Ok(())
}

} // verus!
