//! What the command line of the bridge says.
use vstd::prelude::*;

verus! {

/// What the bridge is asked to do.
#[derive(Clone, Copy, Debug, PartialEq, Eq, Structural)]
pub enum Command {
    /// Generate a registration file
    GenerateRegistration,
    /// Start the server
    Start,
}

/// The arguments of the bridge.
#[derive(Debug, PartialEq, Eq)]
pub struct Args {
    /// Path to configuration file
    pub config: String,
    /// Path to registration file
    pub registration: String,
    /// Command to execute
    pub subcommand: Command,
}

impl Clone for Args {
    fn clone(&self) -> (r: Args)
        ensures
            r == *self,
    {
        Args {
            config: self.config.clone(),
            registration: self.registration.clone(),
            subcommand: self.subcommand,
        }
    }
}

} // verus!
