//! Turns the text fragments of a conference agenda page into talk records and
//! talk records into iCalendar events.
//!
//! The crate has two halves. [`agenda`] groups a flat run of text fragments
//! into [`Talk`] records, seven fragments per talk, six for a reception, and
//! reads date and times with [`datetime`]. [`calendar`] turns a talk into a
//! `VEVENT` whose start and end stamps are built by [`timestamp`].
//! [`filename`] names the calendar files.
//!
//! Every function is verified against a contract over sequences of characters.
//! Work done by other crates (HTML selection, date parsing, the calendar types,
//! the random identifier) is reached through small wrappers whose contracts are
//! taken on trust; each of them says so in its documentation.
pub mod agenda;
pub mod calendar;
pub mod datetime;
pub mod error;
pub mod filename;
pub mod talk;
pub mod text;
pub mod timestamp;

pub use error::{AgendaError, FormatError};
pub use talk::{Date, Talk, Time};
