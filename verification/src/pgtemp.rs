//! The manager of the one instance: where its state lies and what it says.

use crate::chars::{chars_of, trimmed, trimmed_len};
use crate::decimal::{decimal, number_u32, parse, render};
use crate::error::{plain_result, text_result, Error, ErrorKind, ErrorView};
use crate::plan::{Action, ActionView, Plan, PlanView, Stage, StageView};
use crate::process::{join3, read_text, text_of};
use vstd::prelude::*;
use vstd::slice::slice_subrange;

verus! {

/// The manager of the one instance. All its state lies on disk, under the
/// instance directory.
#[derive(Clone, PartialEq, Eq, Debug)]
pub struct PgTemp {
    config_dir: String,
}

impl View for PgTemp {
    type V = Seq<char>;

    /// The path of the instance directory.
    closed spec fn view(&self) -> Seq<char> {
        self.config_dir@
    }
}

/// The instance directory below the home location.
pub open spec fn instance_dir(home: Seq<char>) -> Seq<char> {
    home + "/.pgtemp"@
}

/// The port marker below the instance directory.
pub open spec fn port_path(root: Seq<char>) -> Seq<char> {
    root + "/port"@
}

/// The data directory below the instance directory.
pub open spec fn db_path(root: Seq<char>) -> Seq<char> {
    root + "/db"@
}

/// The port that a port marker with these contents records: a positive number
/// in decimal notation, which white space may follow.
pub open spec fn recorded_port(contents: Seq<u8>) -> Option<u32> {
    match text_of(contents) {
        Some(text) => match number_u32(trimmed(text)) {
            Some(port) => if port > 0 {
                Some(port)
            } else {
                None
            },
            None => None,
        },
        None => None,
    }
}

/// What reading the port marker means: `contents` is `None` where there is no marker.
pub open spec fn read_port_spec(contents: Option<Seq<u8>>) -> Result<u32, ErrorView> {
    match contents {
        None => Err(
            ErrorView {
                kind: ErrorKind::NotFound,
                message: "No port is recorded: no instance has been created"@,
            },
        ),
        Some(bytes) => match recorded_port(bytes) {
            Some(port) => Ok(port),
            None => Err(
                ErrorView {
                    kind: ErrorKind::Parse,
                    message: "The recorded port is not a positive number"@,
                },
            ),
        },
    }
}

/// The connection string of a server on `port`.
pub open spec fn endpoint(port: u32) -> Seq<char> {
    "postgresql://localhost:"@ + decimal(port as nat) + "/postgres"@
}

/// What describing the endpoint means, given the port marker's contents.
pub open spec fn conn_string_spec(contents: Option<Seq<u8>>) -> Result<Seq<char>, ErrorView> {
    match read_port_spec(contents) {
        Ok(port) => Ok(endpoint(port)),
        Err(error) => Err(error),
    }
}

/// The contents of a file that may be absent, as a mathematical value.
pub open spec fn contents_view(contents: Option<&[u8]>) -> Option<Seq<u8>> {
    match contents {
        Some(bytes) => Some(bytes@),
        None => None,
    }
}

impl PgTemp {
    /// The manager for the home location `home`, with the plan that makes sure
    /// of its instance directory. `home` is `None` where the environment names no
    /// home location: that is an error.
    pub fn init(home: Option<String>) -> (result: Result<(PgTemp, Plan), Error>)
        ensures
            match home {
                Some(home) => result is Ok && result->Ok_0.0@ == instance_dir(home@)
                    && result->Ok_0.1@ == (PlanView {
                    root: instance_dir(home@),
                    stage: StageView::EnsureCheck,
                }),
                None => result is Err && result->Err_0@ == (ErrorView {
                    kind: ErrorKind::Environment,
                    message: "Missing HOME variable"@,
                }),
            },
    {
        match home {
            Some(home) => {
                let manager = PgTemp { config_dir: home.concat("/.pgtemp") };
                let plan = manager.plan(Stage::EnsureCheck);
                Ok((manager, plan))
            },
            None => Err(Error::fixed(ErrorKind::Environment, "Missing HOME variable")),
        }
    }

    /// A plan of this manager that stands at `stage`.
    fn plan(&self, stage: Stage) -> (plan: Plan)
        ensures
            plan@ == (PlanView { root: self@, stage: stage@ }),
    {
        Plan::at(PgTemp { config_dir: self.config_dir.clone() }, stage)
    }

    /// The plan that creates an instance whose server listens on `port`.
    pub fn new_db(&self, port: u32) -> (plan: Plan)
        requires
            port > 0,
        ensures
            plan@ == (PlanView { root: self@, stage: StageView::CreateProbe { port } }),
    {
        self.plan(Stage::CreateProbe { port })
    }

    /// The plan that stops the server and removes the instance.
    pub fn delete(&self) -> (plan: Plan)
        ensures
            plan@ == (PlanView { root: self@, stage: StageView::DestroyProbe }),
    {
        self.plan(Stage::DestroyProbe)
    }

    /// The plan that runs the interactive client on the instance.
    pub fn connect(&self) -> (plan: Plan)
        ensures
            plan@ == (PlanView { root: self@, stage: StageView::ConnectRead }),
    {
        self.plan(Stage::ConnectRead)
    }

    /// The path of the instance directory.
    pub fn config_dir(&self) -> (path: String)
        ensures
            path@ == self@,
    {
        self.config_dir.clone()
    }

    /// The path of the port marker.
    pub fn port_path(&self) -> (path: String)
        ensures
            path@ == port_path(self@),
    {
        self.config_dir.clone().concat("/port")
    }

    /// The path of the data directory.
    pub fn db_path(&self) -> (path: String)
        ensures
            path@ == db_path(self@),
    {
        self.config_dir.clone().concat("/db")
    }

    /// The action that records `port` in the port marker: in decimal notation,
    /// with nothing after it.
    pub fn write_port(&self, port: u32) -> (action: Action)
        ensures
            action@ == (ActionView::Write {
                path: port_path(self@),
                contents: decimal(port as nat),
            }),
    {
        Action::Write { path: self.port_path(), contents: render(port) }
    }

    /// The port that the port marker records; `contents` is `None` where there is no marker.
    pub fn read_port(&self, contents: Option<&[u8]>) -> (result: Result<u32, Error>)
        ensures
            plain_result(result) == read_port_spec(contents_view(contents)),
    {
        let bytes = match contents {
            Some(bytes) => bytes,
            None => {
                return Err(
                    Error::fixed(
                        ErrorKind::NotFound,
                        "No port is recorded: no instance has been created",
                    ),
                );
            },
        };
        let port = match read_text(bytes) {
            Some(text) => {
                let chars = chars_of(text.as_str());
                let end: usize = trimmed_len(chars.as_slice());
                parse(slice_subrange(chars.as_slice(), 0, end))
            },
            None => None,
        };
        match port {
            Some(port) if port > 0 => Ok(port),
            _ => Err(Error::fixed(ErrorKind::Parse, "The recorded port is not a positive number")),
        }
    }

    /// The connection string of the instance; `contents` is what the port marker
    /// holds, `None` where there is no marker.
    pub fn conn_string(&self, contents: Option<&[u8]>) -> (result: Result<String, Error>)
        ensures
            text_result(result) == conn_string_spec(contents_view(contents)),
    {
        match self.read_port(contents) {
            Ok(port) => {
                let number = render(port);
                Ok(join3("postgresql://localhost:", number.as_str(), "/postgres"))
            },
            Err(error) => Err(error),
        }
    }
}

} // verus!
