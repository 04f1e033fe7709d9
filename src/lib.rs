//! IEEE reference-list formatting for bibliographic records.
//!
//! Records live in a [`Library`], an arena in which every parent comes
//! before its children. [`Ieee::format`] renders one of them as rich text;
//! its contract states the result exactly over the spec functions of the
//! modules below.

pub mod addons;
pub mod citation;
pub mod ieee;
pub mod names;
pub mod record;
pub mod rich;
pub mod text;

pub use ieee::Ieee;
pub use record::{
    Affiliated, Date, EntryKind, IntRange, Library, NumOrStr, PersonRole, QualifiedUrl, Record,
    Title,
};
pub use rich::{RichText, Run};
