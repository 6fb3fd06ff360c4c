//! Process configuration: a plain value constructed once at startup and passed
//! into every component that needs it. Reading and parsing the configuration
//! file are external concerns; this type only fixes the recognized options and
//! their defaults.

use vstd::prelude::*;

verus! {

/// The recognized configuration options.
#[derive(Debug, Clone, Copy, PartialEq, Eq, Structural)]
pub struct Config {
    /// The polling interval, in milliseconds, used to check for backlight
    /// brightness changes.
    pub poll_interval_ms: u64,
    /// Mirror the backlight brightness into the HSV value channel of
    /// RGB-capable input modules.
    pub rgb_set_hsv_value_to_brightness: bool,
    /// Expose the keyboard's brightness as a kernel virtual LED so that the
    /// operating system's LED subsystem and its users can read and drive it.
    pub expose_via_uleds: bool,
    /// Print a status line for every detected brightness change.
    pub verbose: bool,
}

impl Default for Config {
    /// The defaults used when no configuration file is present: poll every
    /// 200 ms, do not mirror into RGB, expose the kernel LED, stay quiet.
    fn default() -> (c: Config)
        ensures
            c.poll_interval_ms == 200,
            !c.rgb_set_hsv_value_to_brightness,
            c.expose_via_uleds,
            !c.verbose,
    {
        Config {
            poll_interval_ms: 200,
            rgb_set_hsv_value_to_brightness: false,
            expose_via_uleds: true,
            verbose: false,
        }
    }
}

impl Config {
    /// The configuration in effect: this value itself. Kept as an explicit
    /// accessor so that components read the options through one door.
    pub fn get(&self) -> (c: &Config)
        ensures
            c == self,
    {
        self
    }
}

} // verus!
