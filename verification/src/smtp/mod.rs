//! What the mail transfer side shares with the rest: the answer of a
//! message filter and the names of authentication results.
pub mod inbound;
