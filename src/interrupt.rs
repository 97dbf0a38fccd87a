use vstd::prelude::*;

verus! {

/// Marker value: an operation was abandoned because an interrupt was observed.
#[derive(Debug, PartialEq, Eq, Structural)]
pub struct InterruptError {}

impl InterruptError {
    /// A fresh interrupt marker. All markers are equal.
    pub fn new() -> (r: Self)
        ensures
            r == (InterruptError {}),
    {
        InterruptError {}
    }

    /// The text that describes an interrupt to a person.
    pub fn message(&self) -> (r: String)
        ensures
            r@ == "Async fiber interrupted."@,
    {
        "Async fiber interrupted.".to_owned()
    }
}

} // verus!
