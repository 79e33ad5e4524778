//! A decoded boot entry.
use vstd::prelude::*;

verus! {

/// A boot entry: its slot number and its description.
#[derive(Debug, Clone)]
pub struct LoadOption {
    pub number: u16,
    pub description: String,
}

impl LoadOption {
    /// A load option of slot `number` described by `description`.
    pub fn new(number: u16, description: String) -> (r: Self)
        ensures
            r.number == number,
            r.description@ == description@,
    {
        Self { number, description }
    }
}

} // verus!
