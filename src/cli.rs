//! The consistency rules of a provisioning run's options.

use vstd::prelude::*;
use crate::chip::{ChipTypes, SoftTypes};

verus! {

/// The options of a run, by presence.
#[derive(Debug, Clone, Copy, PartialEq, Eq, Structural)]
pub struct RunOptions {
    pub chip: ChipTypes,
    pub soft: SoftTypes,
    pub has_port_to_simulate: bool,
    pub has_id_to_ping: bool,
    pub has_id_to_flash: bool,
    pub has_factory_number: bool,
}

/// Options that do not fit together.
#[derive(Debug, Clone, Copy, PartialEq, Eq, Structural)]
pub enum OptionsError {
    /// A master is probed on its own port: there is no companion to simulate.
    SimulatedPortForMaster,
    /// A master needs an identifier to ping.
    MissingPingTarget,
    /// A master image carries no identifier.
    IdForMaster,
    /// A green board is recorded by its factory number.
    MissingFactoryNumber,
}

/// The first rule that the options break, in the order they are checked.
pub open spec fn options_error(o: RunOptions) -> Option<OptionsError> {
    if o.has_port_to_simulate && o.soft is Master {
        Some(OptionsError::SimulatedPortForMaster)
    } else if !o.has_id_to_ping && o.soft is Master {
        Some(OptionsError::MissingPingTarget)
    } else if o.has_id_to_flash && o.soft is Master {
        Some(OptionsError::IdForMaster)
    } else if o.chip is Green && !o.has_factory_number {
        Some(OptionsError::MissingFactoryNumber)
    } else {
        None
    }
}

/// Checks the options of a run (see `options_error`).
pub fn check_options(o: &RunOptions) -> (r: Result<(), OptionsError>)
    ensures
        r matches Err(e) ==> options_error(*o) == Some(e),
        r is Ok <==> options_error(*o) is None,
{
    let master = match o.soft {
        SoftTypes::Master => true,
        _ => false,
    };
    let green = match o.chip {
        ChipTypes::Green => true,
        _ => false,
    };
    if o.has_port_to_simulate && master {
        Err(OptionsError::SimulatedPortForMaster)
    } else if !o.has_id_to_ping && master {
        Err(OptionsError::MissingPingTarget)
    } else if o.has_id_to_flash && master {
        Err(OptionsError::IdForMaster)
    } else if green && !o.has_factory_number {
        Err(OptionsError::MissingFactoryNumber)
    } else {
        Ok(())
    }
}

impl OptionsError {
    pub open spec fn spec_message(self) -> Seq<char> {
        match self {
            OptionsError::SimulatedPortForMaster => "No reason to simulate port when flashing Master software!"@,
            OptionsError::MissingPingTarget => "Master needs an ID to ping!"@,
            OptionsError::IdForMaster => "There's no reason for a master soft to contain an ID"@,
            OptionsError::MissingFactoryNumber => "When flashing green chips be sure to pass the chips factory number.\n        It usually can be found on the bottom of the chip with a QR code attached"@,
        }
    }

    /// The message shown to the operator.
    pub fn message(&self) -> (r: &'static str)
        ensures
            r@ == self.spec_message(),
    {
        match self {
            OptionsError::SimulatedPortForMaster => "No reason to simulate port when flashing Master software!",
            OptionsError::MissingPingTarget => "Master needs an ID to ping!",
            OptionsError::IdForMaster => "There's no reason for a master soft to contain an ID",
            OptionsError::MissingFactoryNumber => "When flashing green chips be sure to pass the chips factory number.\n        It usually can be found on the bottom of the chip with a QR code attached",
        }
    }
}

} // verus!
