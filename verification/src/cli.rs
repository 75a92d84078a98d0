//! Database maintenance commands, as plain data.
//!
//! The binary around the library parses its command line into these values
//! and performs the input/output they call for.

use vstd::prelude::*;

verus! {

/// A database maintenance command and the database URI it applies to.
#[derive(Clone, Debug, PartialEq)]
pub enum DatabaseCommands {
    CreateDatabase { uri: String },
    TestConnection { uri: String },
}

/// The arguments of the database subcommand.
#[derive(Clone, Debug, PartialEq)]
pub struct DatabaseArgs {
    pub subcommand: DatabaseCommands,
}

impl DatabaseCommands {
    /// The URI the command applies to.
    pub fn uri(&self) -> (r: &String)
        ensures
            self matches DatabaseCommands::CreateDatabase { uri } ==> r == uri,
            self matches DatabaseCommands::TestConnection { uri } ==> r == uri,
    {
        match self {
            DatabaseCommands::CreateDatabase { uri } => uri,
            DatabaseCommands::TestConnection { uri } => uri,
        }
    }
}

} // verus!
