//! Data model and consistency rules for a single VEX (Vulnerability
//! Exploitability eXchange) statement.
//!
//! Raw form input is checked against the controlled vocabularies and the
//! status-dependent field requirements; only a candidate that passes every
//! rule becomes a [`VexEntry`]. An entry is exchanged as a flat [`Record`],
//! which is validated again when it is read.

pub mod entry;
pub mod rules;
pub mod text;
pub mod violation;
pub mod vocab;
pub mod wire;

pub use crate::entry::{validate, validate_with, VexEntry};
pub use crate::rules::{check, fault_of, RawFields};
pub use crate::violation::{ErrorKind, Field, Violation};
pub use crate::vocab::{Justification, Severity, Status};
pub use crate::wire::{deserialize, serialize, Record};
