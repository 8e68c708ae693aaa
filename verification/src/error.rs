//! The ways in which a text fails to name a Steam identifier.

use vstd::prelude::*;

verus! {

/// Why a text was not converted.
#[derive(Debug, Clone, Copy, PartialEq, Eq, Structural)]
pub enum SteamIDError {
    /// The text has the shape of none of the three notations.
    UnrecognizedFormat,
    /// The text has the shape of a notation, but a number in it is not a
    /// decimal numeral that fits in 64 bits.
    NumericOverflow,
}

} // verus!
