//! Capability bookkeeping and command sequencing for a tool that runs the
//! usual Debian/Ubuntu update commands, optionally without `sudo`.
pub mod caps;
pub mod cli;
pub mod text;
pub mod update;
