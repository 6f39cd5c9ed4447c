//! The two ways in which the library can fail.
use vstd::prelude::*;

verus! {

/// Why a page or a run of fragments gave no talks.
#[derive(Clone, Copy, Debug, PartialEq, Eq, Structural)]
pub enum AgendaError {
    /// The selector for the agenda entries is not a valid selector.
    InvalidSelector,
    /// A window reaches beyond the end of the fragments.
    OutOfRange,
    /// A date fragment does not end in a valid `DD.MM.YYYY`.
    BadDate,
    /// A time fragment is not a valid `HH:MM`.
    BadTime,
}

/// Why a stamp could not be built.
#[derive(Clone, Copy, Debug, PartialEq, Eq, Structural)]
pub enum FormatError {
    /// The hour is 0: the hour before it belongs to the previous day, and no
    /// rule says what the stamp should then show.
    HourZero,
}

} // verus!
