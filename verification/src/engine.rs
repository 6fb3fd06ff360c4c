//! The synchronization engine: a per-endpoint wrapper carrying that
//! endpoint's own last-known brightness, a priority-ordered scan that yields
//! the first detected change of a pass, and the propagation that applies a
//! detected value to every endpoint and records what each reported back.
//! Sleeping between passes and running the unbounded loop are external
//! concerns.

use vstd::prelude::*;

verus! {

/// Anything that can take part in brightness synchronization: it can detect
/// an external brightness change against a reference value, and it can
/// accept a new brightness, reporting back the value it actually applied.
pub trait BrightnessDriver {
    /// Checks whether the endpoint's brightness has changed away from
    /// `old_brightness`. A reported change always differs from the reference
    /// value; transport trouble surfaces as no change, never as a failure.
    fn check_brightness_change(&mut self, old_brightness: u8) -> (r: Option<u8>)
        ensures
            r matches Some(v) ==> v != old_brightness,
    ;

    /// Applies a new brightness and reports the value actually applied,
    /// which may differ when the endpoint quantizes more coarsely.
    fn set_brightness(&mut self, brightness: u8) -> (r: u8);
}

/// One endpoint wrapped with a human-readable label and the last brightness
/// observed or applied for that endpoint specifically. The baseline is kept
/// per endpoint because endpoints quantize brightness differently; a shared
/// current value would produce spurious change events when an endpoint
/// echoes back a rounded value.
pub struct DriverState<D> {
    pub name: &'static str,
    pub driver: D,
    pub cur_brightness: u8,
}

impl<D: BrightnessDriver> DriverState<D> {
    /// Wraps an endpoint with its label; the baseline starts at 0.
    pub fn new(driver: D, name: &'static str) -> (s: DriverState<D>)
        ensures
            s.name == name,
            s.driver == driver,
            s.cur_brightness == 0,
    {
        DriverState { name, driver, cur_brightness: 0 }
    }

    /// Asks the endpoint for a change against this endpoint's own baseline.
    /// The baseline itself is not touched by a check.
    pub fn check_brightness_change(&mut self) -> (r: Option<u8>)
        ensures
            final(self).name == old(self).name,
            final(self).cur_brightness == old(self).cur_brightness,
            r matches Some(v) ==> v != old(self).cur_brightness,
    {
        self.driver.check_brightness_change(self.cur_brightness)
    }

    /// Applies a brightness to the endpoint and records the value the
    /// endpoint reported as actually applied — not necessarily the requested
    /// one — as the new baseline.
    pub fn set_brightness(&mut self, brightness: u8) -> (r: u8)
        ensures
            final(self).name == old(self).name,
            final(self).cur_brightness == r,
    {
        let applied = self.driver.set_brightness(brightness);
        self.cur_brightness = applied;
        applied
    }
}

/// One scan of a poll pass: the endpoints are checked in their fixed
/// priority order and the first to report a change wins the pass; the
/// endpoints after it are not checked further. A detected change comes with
/// the position of the endpoint that reported it, and always differs from
/// that endpoint's own baseline. No baseline moves during a scan, so a pass
/// that detects nothing leaves every endpoint as it was.
pub fn poll_pass<D: BrightnessDriver>(drivers: &mut Vec<DriverState<D>>) -> (r: Option<
    (usize, u8),
>)
    ensures
        final(drivers)@.len() == old(drivers)@.len(),
        forall|i: int|
            0 <= i < old(drivers)@.len() ==> #[trigger] final(drivers)@[i].name == old(
                drivers,
            )@[i].name && final(drivers)@[i].cur_brightness == old(drivers)@[i].cur_brightness,
        r matches Some((source, v)) ==> source < old(drivers)@.len() && v != old(
            drivers,
        )@[source as int].cur_brightness,
{
    let mut i: usize = 0;
    while i < drivers.len()
        invariant
            i <= drivers@.len(),
            drivers@.len() == old(drivers)@.len(),
            forall|j: int|
                0 <= j < old(drivers)@.len() ==> #[trigger] drivers@[j].name == old(
                    drivers,
                )@[j].name && drivers@[j].cur_brightness == old(drivers)@[j].cur_brightness,
        decreases drivers@.len() - i,
    {
        let r = drivers[i].check_brightness_change();
        if let Some(v) = r {
            return Some((i, v));
        }
        i = i + 1;
    }
    None
}

/// One propagation pass: applies a detected brightness to every endpoint,
/// the source of the change included so that it reports back its own
/// quantized value, and records each endpoint's own reported value as that
/// endpoint's new baseline. The values reported back are returned in
/// endpoint order: after the pass, each endpoint's baseline is exactly its
/// own entry of that list.
pub fn propagate<D: BrightnessDriver>(drivers: &mut Vec<DriverState<D>>, brightness: u8) -> (applied:
    Vec<u8>)
    ensures
        final(drivers)@.len() == old(drivers)@.len(),
        applied@.len() == old(drivers)@.len(),
        forall|i: int|
            0 <= i < old(drivers)@.len() ==> #[trigger] final(drivers)@[i].name == old(
                drivers,
            )@[i].name && final(drivers)@[i].cur_brightness == applied@[i],
{
    let mut applied: Vec<u8> = Vec::new();
    let mut i: usize = 0;
    while i < drivers.len()
        invariant
            i <= drivers@.len(),
            drivers@.len() == old(drivers)@.len(),
            applied@.len() == i,
            forall|j: int|
                0 <= j < old(drivers)@.len() ==> #[trigger] drivers@[j].name == old(
                    drivers,
                )@[j].name,
            forall|j: int|
                0 <= j < i ==> #[trigger] drivers@[j].cur_brightness == applied@[j],
            forall|j: int|
                i <= j < old(drivers)@.len() ==> #[trigger] drivers@[j].cur_brightness == old(
                    drivers,
                )@[j].cur_brightness,
        decreases drivers@.len() - i,
    {
        let r = drivers[i].set_brightness(brightness);
        applied.push(r);
        i = i + 1;
    }
    applied
}

} // verus!
