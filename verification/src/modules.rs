//! Module discovery and the input-module driver's decisions. Discovery takes
//! the list of devices an enumeration of the HID bus produced, filters by the
//! fixed vendor identifier, classifies each product identifier, and buckets
//! the recognized modules into the one required keyboard slot and the one
//! optional extra slot, first found wins. Opening the control channels and
//! issuing the control requests are external concerns.

use vstd::prelude::*;

use crate::classifier::ModuleKind;
use crate::classifier::ModulePID;
use crate::config::Config;

verus! {

/// What enumeration of the HID bus reports of one attached device.
#[derive(Debug, Clone, Copy, PartialEq, Eq, Structural)]
pub struct ScannedDevice {
    pub vendor_id: u16,
    pub product_id: u16,
    pub usage_page: u16,
}

/// One recognized module selected by discovery: its position in the scanned
/// list and its classified identity.
#[derive(Debug, Clone, Copy, PartialEq, Eq, Structural)]
pub struct DiscoveredModule {
    pub index: usize,
    pub pid: ModulePID,
}

/// The result of discovery: exactly one keyboard module and at most one
/// extra module (numpad or macropad).
#[derive(Debug, Clone, Copy, PartialEq, Eq, Structural)]
pub struct InputModules {
    pub keyboard: DiscoveredModule,
    pub extra: Option<DiscoveredModule>,
}

/// Why discovery failed.
#[derive(Debug, Clone, Copy, PartialEq, Eq, Structural)]
pub enum DiscoverError {
    /// Enumeration finished without one recognized keyboard module: fatal to
    /// startup.
    NoKeyboardModule,
}

/// Whether a scanned device is a recognized input module of this laptop.
pub open spec fn spec_is_candidate(d: ScannedDevice) -> bool {
    d.vendor_id == crate::FRAMEWORK_VID && ModulePID::spec_from_code(d.product_id) is Some
}

/// Whether a scanned device competes for the keyboard slot.
pub open spec fn spec_is_keyboard_candidate(d: ScannedDevice) -> bool {
    spec_is_candidate(d) && ModulePID::spec_from_code(
        d.product_id,
    )->Some_0.spec_kind() == ModuleKind::Keyboard
}

/// Whether a scanned device competes for the extra slot.
pub open spec fn spec_is_extra_candidate(d: ScannedDevice) -> bool {
    spec_is_candidate(d) && ModulePID::spec_from_code(
        d.product_id,
    )->Some_0.spec_kind() != ModuleKind::Keyboard
}

/// Whether the device at position `j` is a surplus duplicate: a recognized
/// module whose slot an earlier device of the same slot kind already took.
pub open spec fn spec_is_duplicate(s: Seq<ScannedDevice>, j: int) -> bool {
    &&& spec_is_candidate(s[j])
    &&& exists|k: int|
        0 <= k < j && #[trigger] spec_is_candidate(s[k]) && (spec_is_keyboard_candidate(s[k])
            == spec_is_keyboard_candidate(s[j]))
}

/// Whether a selected module is the first device of its slot kind: it is a
/// candidate of that kind and no earlier device is.
pub open spec fn spec_first_of_slot(s: Seq<ScannedDevice>, m: DiscoveredModule, keyboard_slot: bool) -> bool {
    &&& m.index < s.len()
    &&& spec_is_keyboard_candidate(s[m.index as int]) == keyboard_slot
    &&& spec_is_extra_candidate(s[m.index as int]) == !keyboard_slot
    &&& ModulePID::spec_from_code(s[m.index as int].product_id) == Some(m.pid)
    &&& forall|j: int|
        0 <= j < m.index ==> (if keyboard_slot {
            !spec_is_keyboard_candidate(#[trigger] s[j])
        } else {
            !spec_is_extra_candidate(#[trigger] s[j])
        })
}

impl InputModules {
    /// Selects the modules from the scanned device list: the keyboard slot
    /// and the extra slot each go to the first recognized device of their
    /// kind; every later device of an already-filled slot is dropped. An
    /// empty keyboard slot after the whole list has been seen is a startup
    /// failure.
    pub fn discover(devs: &Vec<ScannedDevice>) -> (r: Result<InputModules, DiscoverError>)
        ensures
            match r {
                Ok(m) => {
                    &&& spec_first_of_slot(devs@, m.keyboard, true)
                    &&& match m.extra {
                        Some(e) => spec_first_of_slot(devs@, e, false),
                        None => forall|j: int|
                            0 <= j < devs@.len() ==> !spec_is_extra_candidate(#[trigger] devs@[j]),
                    }
                },
                Err(e) => {
                    &&& e == DiscoverError::NoKeyboardModule
                    &&& forall|j: int|
                        0 <= j < devs@.len() ==> !spec_is_keyboard_candidate(#[trigger] devs@[j])
                },
            },
    {
        let mut keyboard: Option<DiscoveredModule> = None;
        let mut extra: Option<DiscoveredModule> = None;
        let mut i: usize = 0;
        while i < devs.len()
            invariant
                i <= devs@.len(),
                match keyboard {
                    Some(m) => m.index < i && spec_first_of_slot(devs@, m, true),
                    None => forall|j: int|
                        0 <= j < i ==> !spec_is_keyboard_candidate(#[trigger] devs@[j]),
                },
                match extra {
                    Some(m) => m.index < i && spec_first_of_slot(devs@, m, false),
                    None => forall|j: int|
                        0 <= j < i ==> !spec_is_extra_candidate(#[trigger] devs@[j]),
                },
            decreases devs@.len() - i,
        {
            let d = devs[i];
            if d.vendor_id == crate::FRAMEWORK_VID {
                if let Some(pid) = ModulePID::from_code(d.product_id) {
                    let found = DiscoveredModule { index: i, pid };
                    match pid.kind() {
                        ModuleKind::Keyboard => {
                            if keyboard.is_none() {
                                keyboard = Some(found);
                            }
                        },
                        ModuleKind::Numpad | ModuleKind::Macropad => {
                            if extra.is_none() {
                                extra = Some(found);
                            }
                        },
                    }
                }
            }
            i = i + 1;
        }
        match keyboard {
            Some(k) => Ok(InputModules { keyboard: k, extra }),
            None => Err(DiscoverError::NoKeyboardModule),
        }
    }
}

/// The positions of every surplus duplicate in the scanned device list, in
/// the order they were seen: each recognized module whose slot an earlier
/// device of the same slot kind already took, and no other.
pub fn duplicate_candidates(devs: &Vec<ScannedDevice>) -> (dups: Vec<usize>)
    ensures
        forall|j: int|
            0 <= j < devs@.len() ==> (#[trigger] dups@.contains(j as usize) <==> spec_is_duplicate(
                devs@,
                j,
            )),
        forall|k: int| 0 <= k < dups@.len() ==> #[trigger] dups@[k] < devs@.len(),
        forall|k1: int, k2: int| 0 <= k1 < k2 < dups@.len() ==> dups@[k1] < dups@[k2],
{
    let mut dups: Vec<usize> = Vec::new();
    let mut seen_keyboard: bool = false;
    let mut seen_extra: bool = false;
    let mut i: usize = 0;
    while i < devs.len()
        invariant
            i <= devs@.len(),
            seen_keyboard == exists|k: int|
                0 <= k < i && spec_is_keyboard_candidate(#[trigger] devs@[k]),
            seen_extra == exists|k: int|
                0 <= k < i && spec_is_extra_candidate(#[trigger] devs@[k]),
            forall|j: int|
                0 <= j < i ==> (#[trigger] dups@.contains(j as usize) <==> spec_is_duplicate(
                    devs@,
                    j,
                )),
            forall|j: int| i <= j < devs@.len() ==> !#[trigger] dups@.contains(j as usize),
            forall|k: int| 0 <= k < dups@.len() ==> #[trigger] dups@[k] < i,
            forall|k1: int, k2: int| 0 <= k1 < k2 < dups@.len() ==> dups@[k1] < dups@[k2],
        decreases devs@.len() - i,
    {
        let d = devs[i];
        let ghost prev = dups@;
        let mut is_dup: bool = false;
        if d.vendor_id == crate::FRAMEWORK_VID {
            if let Some(pid) = ModulePID::from_code(d.product_id) {
                match pid.kind() {
                    ModuleKind::Keyboard => {
                        if seen_keyboard {
                            is_dup = true;
                        }
                        seen_keyboard = true;
                    },
                    ModuleKind::Numpad | ModuleKind::Macropad => {
                        if seen_extra {
                            is_dup = true;
                        }
                        seen_extra = true;
                    },
                }
            }
        }
        if is_dup {
            dups.push(i);
        }
        proof {
            if is_dup {
                assert(dups@ == prev.push(i));
                assert forall|x: usize| #[trigger]
                    dups@.contains(x) <==> (prev.contains(x) || x == i) by {
                    vstd::seq_lib::lemma_seq_contains_after_push(prev, i, x);
                }
                assert(spec_is_duplicate(devs@, i as int));
            } else {
                if spec_is_candidate(devs@[i as int]) {
                    assert(!spec_is_duplicate(devs@, i as int));
                }
                assert(!dups@.contains(i as usize));
            }
        }
        i = i + 1;
    }
    dups
}

/// Whether a set request should be followed by a second request mirroring
/// the brightness into the RGB value channel: only for an RGB-capable module
/// and only when the configuration asks for it.
pub fn should_mirror_rgb(pid: ModulePID, config: &Config) -> (r: bool)
    ensures
        r == (pid.spec_has_rgb() && config.rgb_set_hsv_value_to_brightness),
{
    pid.has_rgb() && config.rgb_set_hsv_value_to_brightness
}

} // verus!
