//! The command line: one verb for each operation.

use vstd::prelude::*;

verus! {

/// Manage temporary Postgres instances.
#[derive(PartialEq, Debug)]
pub struct TopLevel {
    pub subcommand: SubcommandEnum,
}

/// The verbs.
#[derive(PartialEq, Debug)]
pub enum SubcommandEnum {
    New(New),
    Delete(Delete),
    Connect(Connect),
    Connstring(Connstring),
}

/// Create a new temporary Postgres database.
#[derive(PartialEq, Debug)]
pub struct New {
    /// The port to bind to.
    pub port: u32,
}

/// Delete the existing temporary Postgres database.
#[derive(PartialEq, Debug)]
pub struct Delete {}

/// Connect to the existing temporary Postgres database.
#[derive(PartialEq, Debug)]
pub struct Connect {}

/// Display the connection string of the active Postgres database.
#[derive(PartialEq, Debug)]
pub struct Connstring {}

/// The operations of the manager.
#[derive(Clone, Copy, PartialEq, Eq, Debug)]
pub enum Operation {
    /// Create an instance whose server listens on `port`.
    Create { port: u32 },
    /// Stop the server and remove the instance.
    Destroy,
    /// Run the interactive client on the instance.
    Connect,
    /// Say where the instance is reached.
    DescribeEndpoint,
}

impl Operation {
    /// Whether the instance directory is made sure of before the operation.
    /// Destroy takes the disk as it finds it: where no instance directory is
    /// there, it has nothing to do.
    pub fn needs_instance_dir(&self) -> (yes: bool)
        ensures
            yes == !(self is Destroy),
    {
        match self {
            Operation::Destroy => false,
            _ => true,
        }
    }
}

impl TopLevel {
    /// The operation that the command line asks for.
    pub fn operation(&self) -> (operation: Operation)
        ensures
            operation == match self.subcommand {
                SubcommandEnum::New(new) => Operation::Create { port: new.port },
                SubcommandEnum::Delete(_) => Operation::Destroy,
                SubcommandEnum::Connect(_) => Operation::Connect,
                SubcommandEnum::Connstring(_) => Operation::DescribeEndpoint,
            },
    {
        match &self.subcommand {
            SubcommandEnum::New(new) => Operation::Create { port: new.port },
            SubcommandEnum::Delete(_) => Operation::Destroy,
            SubcommandEnum::Connect(_) => Operation::Connect,
            SubcommandEnum::Connstring(_) => Operation::DescribeEndpoint,
        }
    }
}

} // verus!
