//! The command model: the closed set of instructions a single invocation
//! can carry, and the single outcome each one resolves to.

use vstd::prelude::*;
use crate::custom_effect::CustomEffect;
use crate::profile::Profile;

verus! {

/// How an instruction reached the program.
pub enum CliOutput {
    /// The instruction was passed as command-line arguments.
    Cli(OutputType),
}

/// What instruction was received through the CLI: the one outcome the
/// dispatcher must perform.
#[derive(Clone)]
pub enum OutputType {
    /// Apply a fully built profile to the hardware.
    Profile(Profile),
    /// Apply a user-authored effect program to the hardware.
    Custom(CustomEffect),
    /// Nothing is left to do; report success.
    Exit,
}

/// Top-level error of a command invocation.
#[derive(Clone, Copy, Debug, PartialEq, Eq, Structural)]
pub struct CliError;

impl CliError {
    /// A human-readable report of the failure.
    pub fn message(self) -> (r: &'static str)
        ensures
            r@ == "There was an error while executing the CLI"@,
    {
        "There was an error while executing the CLI"
    }
}

/// Resolves the `list` command: the built-in effects are only enumerated,
/// so the outcome is `Exit` and the device manager is never involved.
pub fn resolve_list() -> (o: OutputType)
    ensures
        o is Exit,
{
    OutputType::Exit
}

} // verus!
