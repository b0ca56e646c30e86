//! Error taxonomy, input validation and command decisions for a Python
//! project generator. Terminal output, argument parsing and filesystem probes
//! live in the surrounding application; this library only decides.

pub mod error;
pub mod text;
pub mod report;
pub mod validation;
pub mod cli;
