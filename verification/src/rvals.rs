use vstd::prelude::*;

verus! {

/// A runtime value held in a binding slot.
///
/// `Void` is what an undefined slot holds.
#[derive(Clone, Copy, Debug, PartialEq, Eq, Structural)]
pub enum SteelVal {
    Void,
    BoolV(bool),
    IntV(isize),
    CharV(char),
}

/// Error of a fallible environment operation.
#[derive(Clone, Copy, Debug, PartialEq, Eq, Structural)]
pub struct SteelErr;

} // verus!
