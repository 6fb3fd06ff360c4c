//! The kernel virtual-LED device protocol: the fixed-layout registration
//! record, decoding of change notifications, the one-time swallow of the
//! synthetic notification emitted on registration, and the sysfs brightness
//! payload. Performing the reads and writes themselves is an external
//! concern; every byte that crosses the device boundary is laid out or
//! interpreted here.

use vstd::prelude::*;
use vstd::bytes::*;
use vstd::string::StringExecFns;

use crate::brightness::change_event;
use crate::brightness::spec_change_event;

verus! {

/// Longest name, in bytes, that the registration record can carry.
pub const ULED_NAME_MAX: usize = 64;

/// The maximum brightness registered for the virtual LED: the full 8-bit
/// range.
pub const ULED_MAX_BRIGHTNESS: u32 = 255;

/// The one-time registration record: a 64-byte left-justified, zero-padded
/// name field followed by the 4-byte maximum-brightness value. The 4-byte
/// field uses the machine's native byte order; the supported machines are
/// little-endian, and the layout is fixed here as such.
pub fn registration_record(name: &[u8]) -> (r: Vec<u8>)
    requires
        name@.len() <= ULED_NAME_MAX,
    ensures
        r@.len() == 68,
        forall|i: int| 0 <= i < name@.len() ==> r@[i] == name@[i],
        forall|i: int| name@.len() <= i < 64 ==> r@[i] == 0,
        r@.subrange(64, 68) == spec_u32_to_le_bytes(ULED_MAX_BRIGHTNESS),
{
    let mut r: Vec<u8> = Vec::new();
    let mut i: usize = 0;
    while i < name.len()
        invariant
            i <= name@.len() <= 64,
            r@.len() == i,
            forall|j: int| 0 <= j < i ==> r@[j] == name@[j],
        decreases name@.len() - i,
    {
        r.push(name[i]);
        i = i + 1;
    }
    while i < 64
        invariant
            name@.len() <= i <= 64,
            r@.len() == i,
            forall|j: int| 0 <= j < name@.len() ==> r@[j] == name@[j],
            forall|j: int| name@.len() <= j < i ==> r@[j] == 0,
        decreases 64 - i,
    {
        r.push(0u8);
        i = i + 1;
    }
    let mut tail = u32_to_le_bytes(ULED_MAX_BRIGHTNESS);
    r.append(&mut tail);
    proof {
        assert(r@.subrange(64, 68) =~= spec_u32_to_le_bytes(ULED_MAX_BRIGHTNESS));
    }
    r
}

/// The brightness carried by a 4-byte change notification: the word is read
/// in the machine's byte order and truncated to the 8-bit brightness range.
pub open spec fn spec_notification_value(data: Seq<u8>) -> u8 {
    (spec_u32_from_le_bytes(data) % 256) as u8
}

/// Decodes one 4-byte change notification into a brightness value.
pub fn notification_value(data: &[u8]) -> (v: u8)
    requires
        data@.len() == 4,
    ensures
        v == spec_notification_value(data@),
{
    let raw = u32_from_le_bytes(data);
    (raw % 256) as u8
}

/// The outcome of one change check on the virtual LED. `data` is the payload
/// of a completed 4-byte read; a read that would block or failed carries
/// nothing and means no new external change.
pub open spec fn spec_check_outcome(old_brightness: u8, data: Option<Seq<u8>>) -> Option<u8> {
    match data {
        Some(d) => spec_change_event(old_brightness, spec_notification_value(d)),
        None => None,
    }
}

/// Decides one change check on the virtual LED from the raw read outcome.
pub fn check_outcome(old_brightness: u8, data: Option<&[u8]>) -> (r: Option<u8>)
    requires
        data matches Some(d) ==> d@.len() == 4,
    ensures
        r == spec_check_outcome(
            old_brightness,
            match data {
                Some(d) => Some(d@),
                None => None,
            },
        ),
        r matches Some(v) ==> v != old_brightness,
{
    match data {
        Some(d) => change_event(old_brightness, notification_value(d)),
        None => None,
    }
}

/// Whether the discard read performed right after registration leaves the
/// handle ready. The kernel emits one synthetic "changed to 0" notification
/// on registration; the discard read must observe no change from 0. Observing
/// an actual change there is a setup failure.
pub fn handshake_ready(first_check: Option<u8>) -> (r: bool)
    ensures
        r == (first_check is None),
{
    first_check.is_none()
}

/// The ASCII decimal representation of a brightness value, as written to the
/// sysfs brightness attribute.
pub open spec fn spec_decimal(v: u8) -> Seq<u8> {
    if v < 10 {
        seq![(48 + v) as u8]
    } else if v < 100 {
        seq![(48 + v / 10) as u8, (48 + v % 10) as u8]
    } else {
        seq![(48 + v / 100) as u8, (48 + (v / 10) % 10) as u8, (48 + v % 10) as u8]
    }
}

/// Renders a brightness value as the ASCII decimal payload for the sysfs
/// brightness attribute, without leading zeros.
pub fn brightness_payload(v: u8) -> (r: Vec<u8>)
    ensures
        r@ == spec_decimal(v),
{
    let mut r: Vec<u8> = Vec::new();
    if v < 10 {
        r.push(48 + v);
    } else if v < 100 {
        r.push(48 + v / 10);
        r.push(48 + v % 10);
    } else {
        r.push(48 + v / 100);
        r.push(48 + (v / 10) % 10);
        r.push(48 + v % 10);
    }
    proof {
        assert(r@ =~= spec_decimal(v));
    }
    r
}

/// The sysfs attribute path the brightness is pushed out through, derived
/// from the name the virtual LED was registered under.
pub open spec fn spec_sysfs_path(name: Seq<char>) -> Seq<char> {
    "/sys/class/leds/"@ + name + "/brightness"@
}

/// Derives the sysfs path of the registered LED's brightness attribute.
pub fn sysfs_brightness_path(name: &str) -> (r: String)
    ensures
        r@ == spec_sysfs_path(name@),
{
    let mut r: String = "/sys/class/leds/".to_owned();
    r.append(name);
    r.append("/brightness");
    r
}

/// The virtual LED quantizes nothing: pushing a brightness out applies it
/// exactly, so the value reported back as applied is the value requested.
pub fn applied_by_led(requested: u8) -> (r: u8)
    ensures
        r == requested,
{
    requested
}

/// The virtual LED applies a pushed brightness exactly, so checking against
/// the just-applied value reports no change as long as no external actor
/// moved it: neither an empty read nor the echo of the endpoint's own push
/// is a change event.
pub proof fn lemma_led_set_then_check_is_quiet(applied: u8, data: Seq<u8>)
    ensures
        spec_check_outcome(applied, None) is None,
        spec_notification_value(data) == applied ==> spec_check_outcome(applied, Some(data))
            is None,
{
}

/// The registration handshake swallows exactly the one synthetic zero-value
/// notification: a discard read observing 0 against the initial baseline 0
/// reports no change and the handle becomes ready, while after that any
/// genuine nonzero observation against the same baseline is reported as a
/// real change.
pub proof fn lemma_create_swallows_once()
    ensures
        spec_change_event(0, 0) is None,
        forall|v: u8| v != 0 ==> spec_change_event(0, v) == Some(v),
{
}

} // verus!
