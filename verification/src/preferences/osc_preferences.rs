//! The network addresses between which the commands travel.
use vstd::prelude::*;

verus! {

/// The address this program sends from, and the address of the console: each the four
/// numbers of an IPv4 address and a port.
#[derive(Clone, Copy, Debug, PartialEq, Eq)]
pub struct OscPreferences {
    pub host: ([u8; 4], u16),
    pub desk: ([u8; 4], u16),
}

impl OscPreferences {
    /// The addresses before the user has set any: sending from any address and port, to the
    /// console at 192.168.0.0, port 8000.
    pub open spec fn default_spec() -> OscPreferences {
        OscPreferences { host: ([0u8, 0u8, 0u8, 0u8], 0u16), desk: ([192u8, 168u8, 0u8, 0u8], 8000u16) }
    }

    /// Takes over the addresses that are stored in the configuration.
    pub fn update(&mut self, stored: &OscPreferences)
        ensures
            *final(self) == *stored,
    {
        self.desk = stored.desk;
        self.host = stored.host;
    }

    /// The label of these settings in the list of preferences.
    pub fn name(&self) -> (label: &'static str)
        ensures
            label == "\u{1F5A7} OSC",
    {
        "\u{1F5A7} OSC"
    }
}

impl Default for OscPreferences {
    fn default() -> (preferences: OscPreferences)
        ensures
            preferences == OscPreferences::default_spec(),
    {
        OscPreferences { host: ([0, 0, 0, 0], 0), desk: ([192, 168, 0, 0], 8000) }
    }
}

} // verus!
