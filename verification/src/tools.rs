//! The external tools and the arguments they are given.

use crate::decimal::{decimal, render};
use crate::process::{join3, texts, Invocation, InvocationView};
use vstd::prelude::*;

verus! {

/// The external tools.
#[derive(Clone, Copy, PartialEq, Eq, Debug)]
pub enum Tool {
    /// The version query.
    Probe,
    /// The tool that fills a new data directory.
    Init,
    /// The control tool, asked to start the server.
    Start,
    /// The control tool, asked to stop the server.
    Stop,
    /// The interactive client.
    Client,
}

/// The version query.
pub open spec fn probe_spec() -> InvocationView {
    InvocationView { program: "pg_config"@, args: seq!["--version"@], attached: false }
}

/// The init tool on the data directory `db`.
pub open spec fn init_spec(db: Seq<char>) -> InvocationView {
    InvocationView { program: "initdb"@, args: seq!["-D"@, db], attached: false }
}

/// The options handed to the server: its port, and its socket under `/tmp`.
pub open spec fn server_options(port: u32) -> Seq<char> {
    "-p "@ + decimal(port as nat) + " -k /tmp"@
}

/// The control tool, asked to start a detached server on the data directory `db`.
pub open spec fn start_spec(db: Seq<char>, port: u32) -> InvocationView {
    InvocationView {
        program: "pg_ctl"@,
        args: seq!["-D"@, db, "-o"@, server_options(port), "start"@],
        attached: false,
    }
}

/// The control tool, asked to stop the server of the data directory `db`.
pub open spec fn stop_spec(db: Seq<char>) -> InvocationView {
    InvocationView { program: "pg_ctl"@, args: seq!["-D"@, db, "stop"@], attached: false }
}

/// The interactive client on the caller's terminal, with the connection string
/// as its only argument.
pub open spec fn client_spec(endpoint: Seq<char>) -> InvocationView {
    InvocationView { program: "psql"@, args: seq![endpoint], attached: true }
}

/// The version query.
pub fn probe() -> (invocation: Invocation)
    ensures
        invocation@ == probe_spec(),
{
    let mut args: Vec<String> = Vec::new();
    args.push(String::from_str("--version"));
    assert(texts(args@) =~= seq!["--version"@]);
    Invocation { program: String::from_str("pg_config"), args, attached: false }
}

/// The init tool on the data directory `db`.
pub fn initdb(db: String) -> (invocation: Invocation)
    ensures
        invocation@ == init_spec(db@),
{
    let mut args: Vec<String> = Vec::new();
    args.push(String::from_str("-D"));
    args.push(db);
    assert(texts(args@) =~= seq!["-D"@, db@]);
    Invocation { program: String::from_str("initdb"), args, attached: false }
}

/// The control tool, asked to start a detached server on the data directory `db`.
pub fn start(db: String, port: u32) -> (invocation: Invocation)
    ensures
        invocation@ == start_spec(db@, port),
{
    let number = render(port);
    let mut args: Vec<String> = Vec::new();
    args.push(String::from_str("-D"));
    args.push(db);
    args.push(String::from_str("-o"));
    args.push(join3("-p ", number.as_str(), " -k /tmp"));
    args.push(String::from_str("start"));
    assert(texts(args@) =~= seq!["-D"@, db@, "-o"@, server_options(port), "start"@]);
    Invocation { program: String::from_str("pg_ctl"), args, attached: false }
}

/// The control tool, asked to stop the server of the data directory `db`.
pub fn stop(db: String) -> (invocation: Invocation)
    ensures
        invocation@ == stop_spec(db@),
{
    let mut args: Vec<String> = Vec::new();
    args.push(String::from_str("-D"));
    args.push(db);
    args.push(String::from_str("stop"));
    assert(texts(args@) =~= seq!["-D"@, db@, "stop"@]);
    Invocation { program: String::from_str("pg_ctl"), args, attached: false }
}

/// The interactive client on the caller's terminal.
pub fn client(endpoint: String) -> (invocation: Invocation)
    ensures
        invocation@ == client_spec(endpoint@),
{
    let mut args: Vec<String> = Vec::new();
    args.push(endpoint);
    assert(texts(args@) =~= seq![endpoint@]);
    Invocation { program: String::from_str("psql"), args, attached: true }
}

} // verus!
