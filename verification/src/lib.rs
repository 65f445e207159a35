//! Maintenance scheduling for a mail server, with the directory records and
//! the inbound filter responses that the maintenance tasks touch.
//!
//! Every executable function carries a contract that Verus proves. Time is a
//! count of milliseconds on a monotonic clock that the caller owns.
pub mod text;
pub mod housekeeper;
pub mod directory;
pub mod scripts;
pub mod smtp;
