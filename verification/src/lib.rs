//! Validation rules for identity record cells: a lazy decoder for the
//! self-describing record layout, and the policy that decides whether a
//! record may be created, changed or destroyed.
pub mod entry;
pub mod error;
pub mod molecules;

pub use error::{Error, UtilsError};
