//! Command model, validation and dispatch protocol for a four-zone RGB
//! keyboard lighting controller.
//!
//! The crate turns user-supplied effect descriptions into validated
//! [`profile::Profile`] values and defines the lifecycle contract with the
//! device manager: exclusive-access acquisition, single-command dispatch and
//! guaranteed release.  Hardware communication, file I/O and argument
//! parsing live outside this crate; everything here is plain logic with
//! machine-checked contracts.

pub mod cli;
pub mod codec;
pub mod colors;
pub mod custom_effect;
pub mod dispatch;
pub mod effects;
pub mod profile;
