use vstd::prelude::*;

verus! {

/// Why an operation of this library failed.
#[derive(Clone, Copy, Debug, PartialEq, Eq, Structural)]
pub enum Error {
    /// The bases could not be derived: the window is too wide for the scalar
    /// field, or no point was found for a window within the bounded number of
    /// attempts.
    SetupError,
    /// The input's length in bits is not a multiple of the chunk size, or
    /// exceeds what the bases cover.
    InputLengthError,
    /// The number of windows and their width do not fit the table of bases.
    ParameterMismatchError,
}

} // verus!
