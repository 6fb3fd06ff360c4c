//! Maps a raw USB product identifier to a module identity (keyboard variant,
//! numpad, macropad) and a derived capability flag. A pure, total lookup over
//! the closed table of known product identifiers.

use vstd::prelude::*;

verus! {

/// Identity of one hardware input module, derived from its product identifier.
#[derive(Debug, Clone, Copy, PartialEq, Eq, Structural)]
pub enum ModulePID {
    KeyboardANSI,
    KeyboardANSICopilot,
    KeyboardISO,
    KeyboardJIS,
    Numpad,
    Macropad,
}

/// The coarse kind of a module: the one required keyboard slot, or one of the
/// optional extra slots.
#[derive(Debug, Clone, Copy, PartialEq, Eq, Structural)]
pub enum ModuleKind {
    Keyboard,
    Numpad,
    Macropad,
}

impl ModulePID {
    /// The 16-bit product identifier code of this module.
    pub open spec fn spec_code(self) -> u16 {
        match self {
            ModulePID::KeyboardANSI => 0x0012,
            ModulePID::KeyboardANSICopilot => 0x0030,
            ModulePID::KeyboardISO => 0x0018,
            ModulePID::KeyboardJIS => 0x0019,
            ModulePID::Numpad => 0x0014,
            ModulePID::Macropad => 0x0013,
        }
    }

    /// The module identity a product identifier code maps to, if it is a
    /// recognized module at all.
    pub open spec fn spec_from_code(code: u16) -> Option<ModulePID> {
        if code == 0x0012 {
            Some(ModulePID::KeyboardANSI)
        } else if code == 0x0030 {
            Some(ModulePID::KeyboardANSICopilot)
        } else if code == 0x0018 {
            Some(ModulePID::KeyboardISO)
        } else if code == 0x0019 {
            Some(ModulePID::KeyboardJIS)
        } else if code == 0x0014 {
            Some(ModulePID::Numpad)
        } else if code == 0x0013 {
            Some(ModulePID::Macropad)
        } else {
            None
        }
    }

    pub open spec fn spec_kind(self) -> ModuleKind {
        match self {
            ModulePID::KeyboardANSI
            | ModulePID::KeyboardANSICopilot
            | ModulePID::KeyboardISO
            | ModulePID::KeyboardJIS => ModuleKind::Keyboard,
            ModulePID::Numpad => ModuleKind::Numpad,
            ModulePID::Macropad => ModuleKind::Macropad,
        }
    }

    /// Whether this module can drive an RGB matrix. The ANSI keyboard product
    /// identifier is shared between an RGB and a plain-backlight hardware
    /// variant that no available query can tell apart, so that identifier is
    /// treated as RGB-capable by policy.
    pub open spec fn spec_has_rgb(self) -> bool {
        match self {
            ModulePID::KeyboardANSI => true,
            ModulePID::Macropad => true,
            _ => false,
        }
    }

    /// Classifies a product identifier code, returning the module identity or
    /// nothing for a code outside the known table.
    pub fn from_code(code: u16) -> (r: Option<ModulePID>)
        ensures
            r == ModulePID::spec_from_code(code),
    {
        if code == 0x0012 {
            Some(ModulePID::KeyboardANSI)
        } else if code == 0x0030 {
            Some(ModulePID::KeyboardANSICopilot)
        } else if code == 0x0018 {
            Some(ModulePID::KeyboardISO)
        } else if code == 0x0019 {
            Some(ModulePID::KeyboardJIS)
        } else if code == 0x0014 {
            Some(ModulePID::Numpad)
        } else if code == 0x0013 {
            Some(ModulePID::Macropad)
        } else {
            None
        }
    }

    /// The 16-bit product identifier code of this module.
    pub fn code(self) -> (r: u16)
        ensures
            r == self.spec_code(),
    {
        match self {
            ModulePID::KeyboardANSI => 0x0012,
            ModulePID::KeyboardANSICopilot => 0x0030,
            ModulePID::KeyboardISO => 0x0018,
            ModulePID::KeyboardJIS => 0x0019,
            ModulePID::Numpad => 0x0014,
            ModulePID::Macropad => 0x0013,
        }
    }

    pub fn kind(self) -> (r: ModuleKind)
        ensures
            r == self.spec_kind(),
    {
        match self {
            ModulePID::KeyboardANSI
            | ModulePID::KeyboardANSICopilot
            | ModulePID::KeyboardISO
            | ModulePID::KeyboardJIS => ModuleKind::Keyboard,
            ModulePID::Numpad => ModuleKind::Numpad,
            ModulePID::Macropad => ModuleKind::Macropad,
        }
    }

    pub fn has_rgb(self) -> (r: bool)
        ensures
            r == self.spec_has_rgb(),
    {
        match self {
            ModulePID::KeyboardANSI => true,
            ModulePID::Macropad => true,
            _ => false,
        }
    }
}

impl ModulePID {
    /// The human-readable label of this module: its identity followed by its
    /// vendor and product identifier pair. Each module's code is fixed, so
    /// each label is too.
    pub open spec fn spec_label(self) -> Seq<char> {
        match self {
            ModulePID::KeyboardANSI => "KeyboardANSI (32ac:0012)"@,
            ModulePID::KeyboardANSICopilot => "KeyboardANSICopilot (32ac:0030)"@,
            ModulePID::KeyboardISO => "KeyboardISO (32ac:0018)"@,
            ModulePID::KeyboardJIS => "KeyboardJIS (32ac:0019)"@,
            ModulePID::Numpad => "Numpad (32ac:0014)"@,
            ModulePID::Macropad => "Macropad (32ac:0013)"@,
        }
    }

    /// Renders the module's human-readable label.
    pub fn label(self) -> (r: String)
        ensures
            r@ == self.spec_label(),
    {
        match self {
            ModulePID::KeyboardANSI => "KeyboardANSI (32ac:0012)".to_owned(),
            ModulePID::KeyboardANSICopilot => "KeyboardANSICopilot (32ac:0030)".to_owned(),
            ModulePID::KeyboardISO => "KeyboardISO (32ac:0018)".to_owned(),
            ModulePID::KeyboardJIS => "KeyboardJIS (32ac:0019)".to_owned(),
            ModulePID::Numpad => "Numpad (32ac:0014)".to_owned(),
            ModulePID::Macropad => "Macropad (32ac:0013)".to_owned(),
        }
    }
}

/// Classification is consistent with each module's own code: the table maps a
/// code to the one identity that carries that code, and every identity is
/// reachable from its code.
pub proof fn lemma_classifier_round_trip(code: u16, pid: ModulePID)
    ensures
        ModulePID::spec_from_code(code) matches Some(p) ==> p.spec_code() == code,
        ModulePID::spec_from_code(pid.spec_code()) == Some(pid),
{
}

} // verus!
