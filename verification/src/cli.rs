//! The commands of the program.

use vstd::prelude::*;

verus! {

/// What the program is called with.
#[derive(Debug, Clone, PartialEq)]
pub struct Cli {
    /// Where the configuration is.
    pub config: Option<String>,
    /// Whether everything is logged.
    pub verbose: bool,
    /// Whether colours are left out.
    pub no_color: bool,
    /// What is to be done.
    pub command: Option<Commands>,
}

/// What is to be done.
#[derive(Debug, Clone, Copy, PartialEq, Eq, Structural)]
pub enum Commands {
    /// A session is brought up or taken on, and a conversation begins.
    Run,
    /// The record and what it holds are shown.
    Status,
    /// Everything is removed.
    Kill,
    /// The configuration is checked, here and against the API.
    ValidateConfig,
    /// The API is tried out.
    TestIntegration,
    /// Another program asks.
    Hal,
}

impl Cli {
    /// What is to be done: a conversation, where nothing else is said.
    pub fn selected(&self) -> (command: Commands)
        ensures
            command == match self.command {
                Some(c) => c,
                None => Commands::Run,
            },
    {
        match &self.command {
            Some(c) => *c,
            None => Commands::Run,
        }
    }
}

} // verus!
