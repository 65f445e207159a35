//! The directory records that account maintenance works on: principals,
//! their field-level view at the boundary of the directory interface, and
//! the words by which they are found.
pub mod field;
pub mod permission;
pub mod principal;
pub mod principal_set;
pub mod search;
pub mod types;
pub mod value;
pub mod wire;
