//! A tweet record for a Solana program: its fixed account layout and the
//! program's initialization entry point.

pub mod instructions;
pub mod layout;

pub use instructions::{initialize, Initialize};
pub use layout::Tweet;
