//! Cross-platform input synthesis planning.
//!
//! Copy, paste and enter are synthesized as modifier+key chords whose
//! modifier depends on the platform: Control on Windows and Linux, Command on
//! macOS, and no modifier at all for enter. The simulator here decides which
//! chord to send; the driver binary dispatches the chord to the OS and treats
//! a rejected synthetic event as best-effort (logged, never fatal).

use vstd::prelude::*;

verus! {

/// The platforms the simulator can plan chords for.
#[derive(Clone, Copy, Debug, PartialEq, Eq, Structural)]
pub enum Platform {
    Windows,
    MacOs,
    Linux,
}

/// A chord modifier key.
#[derive(Clone, Copy, Debug, PartialEq, Eq, Structural)]
pub enum Modifier {
    Control,
    Command,
}

/// The non-modifier key of a chord: a printable character or the return key.
#[derive(Clone, Copy, Debug, PartialEq, Eq, Structural)]
pub enum Key {
    Char(u8),
    Return,
}

/// A modifier+key combination to synthesize at the OS level.
#[derive(Clone, Copy, Debug, PartialEq, Eq, Structural)]
pub struct Chord {
    pub modifier: Option<Modifier>,
    pub key: Key,
}

/// The modifier that copy and paste chords carry on each platform.
pub open spec fn platform_modifier(p: Platform) -> Modifier {
    match p {
        Platform::MacOs => Modifier::Command,
        Platform::Windows => Modifier::Control,
        Platform::Linux => Modifier::Control,
    }
}

/// Plans platform-appropriate key chords; the variant is selected once at
/// startup from the platform the process runs on.
#[derive(Clone, Copy, Debug, PartialEq, Eq, Structural)]
pub struct InputSimulator {
    pub platform: Platform,
}

impl InputSimulator {
    pub fn new(platform: Platform) -> (sim: InputSimulator)
        ensures
            sim.platform == platform,
    {
        InputSimulator { platform }
    }

    /// The chord that asks the focused application to copy its selection:
    /// the platform modifier plus the letter `c` (ASCII 99).
    pub fn copy(&self) -> (c: Chord)
        ensures
            c == (Chord { modifier: Some(platform_modifier(self.platform)), key: Key::Char(99u8) }),
    {
        Chord { modifier: Some(self.modifier()), key: Key::Char(99) }
    }

    /// The chord that pastes the clipboard into the focused application:
    /// the platform modifier plus the letter `v` (ASCII 118).
    pub fn paste(&self) -> (c: Chord)
        ensures
            c == (Chord {
                modifier: Some(platform_modifier(self.platform)),
                key: Key::Char(118u8),
            }),
    {
        Chord { modifier: Some(self.modifier()), key: Key::Char(118) }
    }

    /// The enter keystroke; it carries no modifier on any platform.
    pub fn press_enter(&self) -> (c: Chord)
        ensures
            c == (Chord { modifier: None, key: Key::Return }),
    {
        Chord { modifier: None, key: Key::Return }
    }

    fn modifier(&self) -> (m: Modifier)
        ensures
            m == platform_modifier(self.platform),
    {
        match self.platform {
            Platform::MacOs => Modifier::Command,
            Platform::Windows => Modifier::Control,
            Platform::Linux => Modifier::Control,
        }
    }
}

} // verus!
