//! The tags that describe a board: its hardware kind and the firmware role.

use vstd::prelude::*;
use vstd::string::StringExecFns;

verus! {

/// Firmware role flashed onto a board.
#[derive(Debug, Clone, Copy, PartialEq, Eq, Structural)]
pub enum SoftTypes {
    Master,
    Relay1,
    Relay1_5,
}

/// Hardware kind of a board.
#[derive(Debug, Clone, Copy, PartialEq, Eq, Structural)]
pub enum ChipTypes {
    Green,
    BlueShiny,
    BlueNonShiny,
}

/// How a session of a given role gets its signal measured.
#[derive(Debug, Clone, Copy, PartialEq, Eq, Structural)]
pub enum PingTopology {
    /// The board originates pings itself, on its own port.
    Direct,
    /// The board only answers pings: a master on another port probes it.
    ViaCompanion,
}

impl SoftTypes {
    pub open spec fn spec_needs_handshake(self) -> bool {
        self is Master
    }

    pub open spec fn spec_ping_topology(self) -> PingTopology {
        if self is Master {
            PingTopology::Direct
        } else {
            PingTopology::ViaCompanion
        }
    }

    /// Whether a session in this role waits for the startup banner.
    pub fn needs_handshake(&self) -> (r: bool)
        ensures
            r == self.spec_needs_handshake(),
    {
        match self {
            SoftTypes::Master => true,
            _ => false,
        }
    }

    /// Where the pings that measure a board in this role come from.
    pub fn ping_topology(&self) -> (r: PingTopology)
        ensures
            r == self.spec_ping_topology(),
    {
        match self {
            SoftTypes::Master => PingTopology::Direct,
            _ => PingTopology::ViaCompanion,
        }
    }
}


impl SoftTypes {
    pub open spec fn spec_name(self) -> Seq<char> {
        match self {
            SoftTypes::Master => "Master"@,
            SoftTypes::Relay1 => "Relay1"@,
            SoftTypes::Relay1_5 => "Relay1_5"@,
        }
    }

    /// The role's name, as records store it.
    pub fn name(&self) -> (r: &'static str)
        ensures
            r@ == self.spec_name(),
    {
        match self {
            SoftTypes::Master => "Master",
            SoftTypes::Relay1 => "Relay1",
            SoftTypes::Relay1_5 => "Relay1_5",
        }
    }
}

impl ChipTypes {
    pub open spec fn spec_name(self) -> Seq<char> {
        match self {
            ChipTypes::Green => "Green"@,
            ChipTypes::BlueShiny => "BlueShiny"@,
            ChipTypes::BlueNonShiny => "BlueNonShiny"@,
        }
    }

    /// The kind's name, as records store it.
    pub fn name(&self) -> (r: &'static str)
        ensures
            r@ == self.spec_name(),
    {
        match self {
            ChipTypes::Green => "Green",
            ChipTypes::BlueShiny => "BlueShiny",
            ChipTypes::BlueNonShiny => "BlueNonShiny",
        }
    }
}

/// Whether two texts are equal.
pub fn same_text(a: &str, b: &str) -> (r: bool)
    ensures
        r == (a@ == b@),
{
    String::from_str(a) == String::from_str(b)
}

/// The hardware kind a command-line value names.
pub open spec fn chip_type_named(value: Seq<char>) -> Option<ChipTypes> {
    if value == "green"@ {
        Some(ChipTypes::Green)
    } else if value == "blue-shiny"@ {
        Some(ChipTypes::BlueShiny)
    } else if value == "blue-non-shiny"@ {
        Some(ChipTypes::BlueNonShiny)
    } else {
        None
    }
}

/// The firmware role a command-line value names.
pub open spec fn soft_type_named(value: Seq<char>) -> Option<SoftTypes> {
    if value == "rel-mk1"@ {
        Some(SoftTypes::Relay1)
    } else if value == "rel-mk1.5"@ {
        Some(SoftTypes::Relay1_5)
    } else if value == "master"@ {
        Some(SoftTypes::Master)
    } else {
        None
    }
}

/// Reads a hardware kind: `green`, `blue-shiny` or `blue-non-shiny`.
pub fn get_chip_type(value: &str) -> (r: Result<ChipTypes, String>)
    ensures
        match r {
            Ok(c) => chip_type_named(value@) == Some(c),
            Err(msg) => chip_type_named(value@) is None && msg@ == "Unsupported chip type"@,
        },
{
    if same_text(value, "green") {
        Ok(ChipTypes::Green)
    } else if same_text(value, "blue-shiny") {
        Ok(ChipTypes::BlueShiny)
    } else if same_text(value, "blue-non-shiny") {
        Ok(ChipTypes::BlueNonShiny)
    } else {
        Err(String::from_str("Unsupported chip type"))
    }
}

/// Reads a firmware role: `rel-mk1`, `rel-mk1.5` or `master`.
pub fn get_soft_type(value: &str) -> (r: Result<SoftTypes, String>)
    ensures
        match r {
            Ok(s) => soft_type_named(value@) == Some(s),
            Err(msg) => soft_type_named(value@) is None && msg@ == "Unsupported software"@,
        },
{
    if same_text(value, "rel-mk1") {
        Ok(SoftTypes::Relay1)
    } else if same_text(value, "rel-mk1.5") {
        Ok(SoftTypes::Relay1_5)
    } else if same_text(value, "master") {
        Ok(SoftTypes::Master)
    } else {
        Err(String::from_str("Unsupported software"))
    }
}

} // verus!
