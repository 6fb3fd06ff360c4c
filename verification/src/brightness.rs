//! Decisions shared by every brightness endpoint: when an observed value
//! counts as a change against the endpoint's own last recorded value, and
//! which value counts as actually applied after a set request.

use vstd::prelude::*;

verus! {

/// What a change check reports given the last recorded value and the value
/// now observed: the observed value only when it differs.
pub open spec fn spec_change_event(old_brightness: u8, observed: u8) -> Option<u8> {
    if observed != old_brightness {
        Some(observed)
    } else {
        None
    }
}

/// Compares an observed brightness against the last recorded one.
pub fn change_event(old_brightness: u8, observed: u8) -> (r: Option<u8>)
    ensures
        r == spec_change_event(old_brightness, observed),
{
    if observed != old_brightness {
        Some(observed)
    } else {
        None
    }
}

/// The outcome of one change check given the result of the underlying read:
/// nothing observed (a failed or would-block read) means no change, and an
/// observation is a change only when it differs from the recorded value.
pub open spec fn spec_check_change(old_brightness: u8, observation: Option<u8>) -> Option<u8> {
    match observation {
        Some(b) => spec_change_event(old_brightness, b),
        None => None,
    }
}

/// Decides one change check from the raw outcome of the endpoint's read.
/// A transport error never surfaces as a change; link transience must not
/// disturb the polling loop.
pub fn check_change_outcome(old_brightness: u8, observation: Option<u8>) -> (r: Option<u8>)
    ensures
        r == spec_check_change(old_brightness, observation),
        r matches Some(v) ==> v != old_brightness,
{
    match observation {
        Some(b) => change_event(old_brightness, b),
        None => None,
    }
}

/// The value an endpoint reports as actually applied after a set request.
pub open spec fn spec_applied_brightness(requested: u8, reread: Option<u8>) -> u8 {
    match reread {
        Some(b) => b,
        None => requested,
    }
}

/// The value to record as applied after a set request: hardware brightness
/// resolution may be coarser than the full 8-bit range, so the value re-read
/// from the device wins; when the re-read failed, the requested value is the
/// best available answer.
pub fn applied_brightness(requested: u8, reread: Option<u8>) -> (r: u8)
    ensures
        r == spec_applied_brightness(requested, reread),
{
    match reread {
        Some(b) => b,
        None => requested,
    }
}

/// An endpoint that reports back the value it observed applied, and whose
/// underlying device then stays unchanged, never reports a spurious change:
/// checking against the reported value with the same observation yields no
/// event.
pub proof fn lemma_set_then_check_is_quiet(requested: u8, observed: u8)
    ensures
        spec_check_change(spec_applied_brightness(requested, Some(observed)), Some(observed))
            is None,
        spec_check_change(requested, Some(requested)) is None,
{
}

} // verus!
