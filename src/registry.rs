//! Decisions behind the records kept of boards.

use vstd::prelude::*;

verus! {

/// What registering a board with a factory number does.
#[derive(Debug, Clone, Copy, PartialEq, Eq, Structural)]
pub enum ChipRegistration {
    /// Exactly one board carries the number: its record is updated and reused.
    Update(i64),
    /// Otherwise a new record is inserted.
    Insert,
}

pub open spec fn chip_registration_for(matching_ids: Seq<i64>) -> ChipRegistration {
    if matching_ids.len() == 1 {
        ChipRegistration::Update(matching_ids[0])
    } else {
        ChipRegistration::Insert
    }
}

/// Decides from the records that carry a board's factory number.
pub fn chip_registration(matching_ids: &Vec<i64>) -> (r: ChipRegistration)
    ensures
        r == chip_registration_for(matching_ids@),
{
    if matching_ids.len() == 1 {
        ChipRegistration::Update(matching_ids[0])
    } else {
        ChipRegistration::Insert
    }
}

} // verus!
