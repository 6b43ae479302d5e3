//! Works out which type-declaration packages a project needs from the two
//! dependency groups of its manifest, and what to run to install them.

pub mod manifest;
pub mod filter;
pub mod plan;
pub mod laws;
