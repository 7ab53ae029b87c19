use pgtemp::error::{Error, ErrorKind};
use pgtemp::pgtemp::PgTemp;
use pgtemp::plan::{Action, Event, Place, Plan};
use pgtemp::process::Exit;
use pgtemp::tools::Tool;

/// A disk and a set of tools that exist in memory only.
struct World {
    root: bool,
    marker: Option<Vec<u8>>,
    data: bool,
    running: bool,
    banner: &'static str,
    init_fails: bool,
    start_fails: bool,
    stop_fails: bool,
    asked: Vec<Action>,
}

fn exited(success: bool, stdout: &str, stderr: &str) -> Event {
    Event::Exited(Exit {
        success,
        stdout: stdout.as_bytes().to_vec(),
        stderr: stderr.as_bytes().to_vec(),
    })
}

impl World {
    fn new() -> World {
        World {
            root: false,
            marker: None,
            data: false,
            running: false,
            banner: "PostgreSQL 15.4\n",
            init_fails: false,
            start_fails: false,
            stop_fails: false,
            asked: Vec::new(),
        }
    }

    fn state(&self) -> (bool, Option<Vec<u8>>, bool, bool) {
        (self.root, self.marker.clone(), self.data, self.running)
    }

    fn answer(&mut self, action: &Action) -> Event {
        self.asked.push(action.clone());
        match action {
            Action::Exists { place: Place::Root, .. } => Event::Present(self.root),
            Action::Exists { place: Place::Data, .. } => Event::Present(self.data),
            Action::CreateDir { .. } => {
                if self.root {
                    Event::Failed(String::from("File exists"))
                } else {
                    self.root = true;
                    Event::Done
                }
            }
            Action::Write { contents, .. } => {
                if self.root {
                    self.marker = Some(contents.as_bytes().to_vec());
                    Event::Done
                } else {
                    Event::Failed(String::from("No such file or directory"))
                }
            }
            Action::Read { .. } => match &self.marker {
                Some(bytes) => Event::Contents(bytes.clone()),
                None => Event::Missing,
            },
            Action::RemoveTree { .. } => {
                self.root = false;
                self.marker = None;
                self.data = false;
                Event::Done
            }
            Action::Run { tool, .. } => match tool {
                Tool::Probe => exited(true, self.banner, ""),
                Tool::Init => {
                    if self.init_fails {
                        exited(false, "", "initdb: cannot write")
                    } else {
                        self.data = true;
                        exited(true, "ok\n", "")
                    }
                }
                Tool::Start => {
                    if self.start_fails {
                        exited(false, "", "pg_ctl: could not start server")
                    } else {
                        self.running = true;
                        exited(true, "server started\n", "")
                    }
                }
                Tool::Stop => {
                    if self.stop_fails || !self.running {
                        exited(false, "", "pg_ctl: could not stop server")
                    } else {
                        self.running = false;
                        exited(true, "server stopped\n", "")
                    }
                }
                Tool::Client => exited(true, "", ""),
            },
        }
    }

    fn drive(&mut self, plan: Plan) -> Result<(), Error> {
        self.asked.clear();
        let mut plan = plan;
        loop {
            match plan.pending() {
                Some(action) => {
                    assert!(!plan.finished());
                    let event = self.answer(&action);
                    plan = plan.advance(event);
                }
                None => {
                    assert!(plan.finished());
                    return plan.outcome().unwrap();
                }
            }
        }
    }

    fn tools_run(&self) -> Vec<Tool> {
        let mut tools = Vec::new();
        for action in &self.asked {
            if let Action::Run { tool, .. } = action {
                tools.push(*tool);
            }
        }
        tools
    }

    fn describe(&self, manager: &PgTemp) -> Result<String, Error> {
        manager.conn_string(self.marker.as_deref())
    }
}

fn open(world: &mut World) -> PgTemp {
    let (manager, plan) = PgTemp::init(Some(String::from("/home/alice"))).unwrap();
    assert_eq!(world.drive(plan), Ok(()));
    manager
}

fn manager() -> PgTemp {
    PgTemp::init(Some(String::from("/home/alice"))).unwrap().0
}

fn root() -> String {
    String::from("/home/alice/.pgtemp")
}

#[test]
fn init_twice_leaves_one_instance_directory() {
    let mut world = World::new();
    let (_, first) = PgTemp::init(Some(String::from("/home/alice"))).unwrap();
    assert_eq!(world.drive(first), Ok(()));
    assert_eq!(
        world.asked,
        vec![
            Action::Exists { place: Place::Root, path: root() },
            Action::CreateDir { path: root() },
        ]
    );
    assert_eq!(world.state(), (true, None, false, false));
    let (_, second) = PgTemp::init(Some(String::from("/home/alice"))).unwrap();
    assert_eq!(world.drive(second), Ok(()));
    assert_eq!(world.asked, vec![Action::Exists { place: Place::Root, path: root() }]);
    assert_eq!(world.state(), (true, None, false, false));
}

#[test]
fn init_forgives_a_directory_that_appeared_meanwhile() {
    let (_, plan) = PgTemp::init(Some(String::from("/home/alice"))).unwrap();
    let plan = plan.advance(Event::Present(false));
    let plan = plan.advance(Event::Failed(String::from("File exists")));
    assert_eq!(plan.pending(), Some(Action::Exists { place: Place::Root, path: root() }));
    let plan = plan.advance(Event::Present(true));
    assert_eq!(plan.outcome(), Some(Ok(())));
}

#[test]
fn init_reports_a_directory_that_cannot_be_created() {
    let (_, plan) = PgTemp::init(Some(String::from("/home/alice"))).unwrap();
    let plan = plan.advance(Event::Present(false));
    let plan = plan.advance(Event::Failed(String::from("Permission denied")));
    let plan = plan.advance(Event::Present(false));
    assert_eq!(
        plan.outcome(),
        Some(Err(Error { kind: ErrorKind::Io, message: String::from("Permission denied") }))
    );
}

#[test]
fn create_asks_for_each_step_in_order() {
    let mut world = World::new();
    let manager = open(&mut world);
    assert_eq!(world.drive(manager.new_db(5432)), Ok(()));
    let asked: Vec<String> = world.asked.iter().map(|action| format!("{:?}", action)).collect();
    let expected = vec![
        Action::Run { tool: Tool::Probe, invocation: pgtemp::tools::probe() },
        Action::Exists { place: Place::Data, path: String::from("/home/alice/.pgtemp/db") },
        Action::Write {
            path: String::from("/home/alice/.pgtemp/port"),
            contents: String::from("5432"),
        },
        Action::Exists { place: Place::Root, path: root() },
        Action::Run {
            tool: Tool::Init,
            invocation: pgtemp::tools::initdb(String::from("/home/alice/.pgtemp/db")),
        },
        Action::Run {
            tool: Tool::Start,
            invocation: pgtemp::tools::start(String::from("/home/alice/.pgtemp/db"), 5432),
        },
    ];
    let expected: Vec<String> = expected.iter().map(|action| format!("{:?}", action)).collect();
    assert_eq!(asked, expected);
    assert_eq!(world.state(), (true, Some(b"5432".to_vec()), true, true));
}

#[test]
fn create_then_describe_round_trip() {
    let mut world = World::new();
    let manager = open(&mut world);
    assert_eq!(world.drive(manager.new_db(5432)), Ok(()));
    assert_eq!(world.describe(&manager), Ok(String::from("postgresql://localhost:5432/postgres")));
}

#[test]
fn second_create_is_refused_and_keeps_the_first_port() {
    let mut world = World::new();
    let manager = open(&mut world);
    assert_eq!(world.drive(manager.new_db(5432)), Ok(()));
    let before = world.state();
    let error = world.drive(manager.new_db(6543)).unwrap_err();
    assert_eq!(error.kind, ErrorKind::AlreadyExists);
    assert_eq!(error.to_string(), "Cannot create a new DB, one still exists.");
    assert_eq!(world.state(), before);
    assert_eq!(world.marker, Some(b"5432".to_vec()));
    assert_eq!(world.tools_run(), vec![Tool::Probe]);
    assert_eq!(world.describe(&manager), Ok(String::from("postgresql://localhost:5432/postgres")));
}

#[test]
fn failed_init_tool_leaves_nothing_behind() {
    let mut world = World::new();
    let manager = open(&mut world);
    world.init_fails = true;
    let error = world.drive(manager.new_db(5432)).unwrap_err();
    assert_eq!(
        error,
        Error {
            kind: ErrorKind::Setup,
            message: String::from("Failed to run initdb: 'initdb: cannot write'"),
        }
    );
    assert_eq!(world.tools_run(), vec![Tool::Probe, Tool::Init]);
    assert_eq!(world.asked.last(), Some(&Action::RemoveTree { path: root() }));
    assert_eq!(world.state(), (false, None, false, false));
    assert_eq!(world.describe(&manager).unwrap_err().kind, ErrorKind::NotFound);

    world.init_fails = false;
    let manager = open(&mut world);
    assert_eq!(world.drive(manager.new_db(6543)), Ok(()));
    assert_eq!(world.describe(&manager), Ok(String::from("postgresql://localhost:6543/postgres")));
}

#[test]
fn failed_start_leaves_nothing_behind() {
    let mut world = World::new();
    let manager = open(&mut world);
    world.start_fails = true;
    let error = world.drive(manager.new_db(5432)).unwrap_err();
    assert_eq!(
        error,
        Error {
            kind: ErrorKind::Setup,
            message: String::from("Failed to run pg_ctl: 'pg_ctl: could not start server'"),
        }
    );
    assert_eq!(world.tools_run(), vec![Tool::Probe, Tool::Init, Tool::Start]);
    assert_eq!(world.state(), (false, None, false, false));
}

#[test]
fn failed_cleanup_is_swallowed() {
    let plan = manager().new_db(5432);
    let plan = plan.advance(exited(true, "PostgreSQL 14.1", ""));
    let plan = plan.advance(Event::Present(false));
    let plan = plan.advance(Event::Done);
    let plan = plan.advance(Event::Present(true));
    let plan = plan.advance(Event::Failed(String::from("initdb: command not found")));
    assert_eq!(plan.pending(), Some(Action::Exists { place: Place::Root, path: root() }));
    let plan = plan.advance(Event::Present(true));
    assert_eq!(plan.pending(), Some(Action::RemoveTree { path: root() }));
    let plan = plan.advance(Event::Failed(String::from("Directory not empty")));
    assert_eq!(
        plan.outcome(),
        Some(Err(Error { kind: ErrorKind::Setup, message: String::from("initdb: command not found") }))
    );
}

#[test]
fn failed_marker_write_is_an_io_error_without_cleanup() {
    let plan = manager().new_db(5432);
    let plan = plan.advance(exited(true, "PostgreSQL 14.1", ""));
    let plan = plan.advance(Event::Present(false));
    let plan = plan.advance(Event::Failed(String::from("Read-only file system")));
    assert_eq!(plan.pending(), None);
    assert_eq!(
        plan.outcome(),
        Some(Err(Error { kind: ErrorKind::Io, message: String::from("Read-only file system") }))
    );
}

#[test]
fn create_makes_the_parent_directory_where_it_is_missing() {
    let plan = manager().new_db(5432);
    let plan = plan.advance(exited(true, "PostgreSQL 16.0", ""));
    let plan = plan.advance(Event::Present(false));
    let plan = plan.advance(Event::Done);
    let plan = plan.advance(Event::Present(false));
    assert_eq!(plan.pending(), Some(Action::CreateDir { path: root() }));
    let plan = plan.advance(Event::Done);
    assert!(matches!(plan.pending(), Some(Action::Run { tool: Tool::Init, .. })));
}

#[test]
fn create_forgives_a_parent_directory_that_appeared_meanwhile() {
    let plan = manager().new_db(5432);
    let plan = plan.advance(exited(true, "PostgreSQL 16.0", ""));
    let plan = plan.advance(Event::Present(false));
    let plan = plan.advance(Event::Done);
    let plan = plan.advance(Event::Present(false));
    let plan = plan.advance(Event::Failed(String::from("File exists")));
    assert_eq!(plan.pending(), Some(Action::Exists { place: Place::Root, path: root() }));
    let plan = plan.advance(Event::Present(true));
    assert!(matches!(plan.pending(), Some(Action::Run { tool: Tool::Init, .. })));
}

#[test]
fn create_reports_a_parent_directory_that_cannot_be_created() {
    let plan = manager().new_db(5432);
    let plan = plan.advance(exited(true, "PostgreSQL 16.0", ""));
    let plan = plan.advance(Event::Present(false));
    let plan = plan.advance(Event::Done);
    let plan = plan.advance(Event::Present(false));
    let plan = plan.advance(Event::Failed(String::from("Permission denied")));
    let plan = plan.advance(Event::Present(false));
    assert_eq!(
        plan.outcome(),
        Some(Err(Error { kind: ErrorKind::Io, message: String::from("Permission denied") }))
    );
}

#[test]
fn init_tool_output_that_is_no_text_fails_the_setup() {
    let plan = manager().new_db(5432);
    let plan = plan.advance(exited(true, "PostgreSQL 16.0", ""));
    let plan = plan.advance(Event::Present(false));
    let plan = plan.advance(Event::Done);
    let plan = plan.advance(Event::Present(true));
    let plan = plan.advance(Event::Exited(Exit {
        success: true,
        stdout: vec![0xff, 0xfe],
        stderr: Vec::new(),
    }));
    assert_eq!(plan.pending(), Some(Action::Exists { place: Place::Root, path: root() }));
    let plan = plan.advance(Event::Present(false));
    assert_eq!(
        plan.outcome(),
        Some(Err(Error {
            kind: ErrorKind::Setup,
            message: String::from("Output of initdb is not valid UTF-8"),
        }))
    );
}

#[test]
fn unsupported_version_stops_create_before_anything_else() {
    let mut world = World::new();
    let manager = open(&mut world);
    world.banner = "PostgreSQL 13.9\n";
    let before = world.state();
    let error = world.drive(manager.new_db(5432)).unwrap_err();
    assert_eq!(
        error,
        Error {
            kind: ErrorKind::UnsupportedVersion,
            message: String::from("Unsupported Postgres version"),
        }
    );
    assert_eq!(world.asked.len(), 1);
    assert_eq!(world.tools_run(), vec![Tool::Probe]);
    assert_eq!(world.state(), before);
}

#[test]
fn unsupported_version_stops_destroy_before_anything_else() {
    let mut world = World::new();
    let manager = open(&mut world);
    assert_eq!(world.drive(manager.new_db(5432)), Ok(()));
    world.banner = "PostgreSQL 9.6\n";
    let before = world.state();
    let error = world.drive(manager.delete()).unwrap_err();
    assert_eq!(error.kind, ErrorKind::UnsupportedVersion);
    assert_eq!(world.asked.len(), 1);
    assert_eq!(world.tools_run(), vec![Tool::Probe]);
    assert_eq!(world.state(), before);
}

#[test]
fn probe_that_cannot_run_is_a_probe_error() {
    let plan = manager().delete();
    let plan = plan.advance(Event::Failed(String::from("pg_config: No such file or directory")));
    assert_eq!(
        plan.outcome(),
        Some(Err(Error {
            kind: ErrorKind::Probe,
            message: String::from("pg_config: No such file or directory"),
        }))
    );
}

#[test]
fn destroy_stops_the_server_and_removes_the_instance() {
    let mut world = World::new();
    let manager = open(&mut world);
    assert_eq!(world.drive(manager.new_db(5432)), Ok(()));
    assert_eq!(world.drive(manager.delete()), Ok(()));
    let asked: Vec<String> = world.asked.iter().map(|action| format!("{:?}", action)).collect();
    let expected = vec![
        Action::Run { tool: Tool::Probe, invocation: pgtemp::tools::probe() },
        Action::Exists { place: Place::Root, path: root() },
        Action::Run {
            tool: Tool::Stop,
            invocation: pgtemp::tools::stop(String::from("/home/alice/.pgtemp/db")),
        },
        Action::RemoveTree { path: root() },
    ];
    let expected: Vec<String> = expected.iter().map(|action| format!("{:?}", action)).collect();
    assert_eq!(asked, expected);
    assert_eq!(world.state(), (false, None, false, false));
}

#[test]
fn destroy_without_instance_does_nothing() {
    let mut world = World::new();
    let manager = manager();
    assert_eq!(world.drive(manager.delete()), Ok(()));
    assert_eq!(world.tools_run(), vec![Tool::Probe]);
    assert_eq!(world.asked.len(), 2);
    assert_eq!(world.state(), (false, None, false, false));
}

#[test]
fn destroy_twice_is_safe() {
    let mut world = World::new();
    let manager = open(&mut world);
    assert_eq!(world.drive(manager.new_db(5432)), Ok(()));
    assert_eq!(world.drive(manager.delete()), Ok(()));
    assert_eq!(world.drive(manager.delete()), Ok(()));
    assert_eq!(world.tools_run(), vec![Tool::Probe]);
}

#[test]
fn create_after_destroy_starts_afresh() {
    let mut world = World::new();
    let manager = open(&mut world);
    assert_eq!(world.drive(manager.new_db(5432)), Ok(()));
    assert_eq!(world.drive(manager.delete()), Ok(()));
    assert_eq!(world.describe(&manager).unwrap_err().kind, ErrorKind::NotFound);
    let manager = open(&mut world);
    assert_eq!(world.drive(manager.new_db(6543)), Ok(()));
    assert_eq!(world.describe(&manager), Ok(String::from("postgresql://localhost:6543/postgres")));
}

#[test]
fn create_without_instance_directory_fails_at_the_marker() {
    let mut world = World::new();
    let error = world.drive(manager().new_db(5432)).unwrap_err();
    assert_eq!(error.kind, ErrorKind::Io);
    assert_eq!(world.tools_run(), vec![Tool::Probe]);
    assert_eq!(world.state(), (false, None, false, false));
}

#[test]
fn failed_stop_keeps_the_instance() {
    let mut world = World::new();
    let manager = open(&mut world);
    assert_eq!(world.drive(manager.new_db(5432)), Ok(()));
    world.stop_fails = true;
    let before = world.state();
    let error = world.drive(manager.delete()).unwrap_err();
    assert_eq!(
        error,
        Error {
            kind: ErrorKind::Stop,
            message: String::from("Failed to run pg_ctl: 'pg_ctl: could not stop server'"),
        }
    );
    assert_eq!(world.state(), before);
    assert_eq!(world.tools_run(), vec![Tool::Probe, Tool::Stop]);
}

#[test]
fn failed_removal_is_an_io_error() {
    let plan = manager().delete();
    let plan = plan.advance(exited(true, "PostgreSQL 15.1", ""));
    let plan = plan.advance(Event::Present(true));
    let plan = plan.advance(exited(true, "", ""));
    assert_eq!(plan.pending(), Some(Action::RemoveTree { path: root() }));
    let plan = plan.advance(Event::Failed(String::from("Permission denied")));
    assert_eq!(
        plan.outcome(),
        Some(Err(Error {
            kind: ErrorKind::Io,
            message: String::from("Failed to remove /home/alice/.pgtemp: Permission denied"),
        }))
    );
}

#[test]
fn connect_runs_the_client_on_the_endpoint() {
    let mut world = World::new();
    let manager = open(&mut world);
    assert_eq!(world.drive(manager.new_db(5432)), Ok(()));
    assert_eq!(world.drive(manager.connect()), Ok(()));
    assert_eq!(
        world.asked,
        vec![
            Action::Read { path: String::from("/home/alice/.pgtemp/port") },
            Action::Run {
                tool: Tool::Client,
                invocation: pgtemp::tools::client(String::from(
                    "postgresql://localhost:5432/postgres"
                )),
            },
        ]
    );
}

#[test]
fn connect_without_instance_is_not_found() {
    let mut world = World::new();
    let manager = open(&mut world);
    let error = world.drive(manager.connect()).unwrap_err();
    assert_eq!(error.kind, ErrorKind::NotFound);
    assert_eq!(world.tools_run(), Vec::<Tool>::new());
}

#[test]
fn connect_with_malformed_marker_is_a_parse_error() {
    let mut world = World::new();
    let manager = open(&mut world);
    world.marker = Some(b"five thousand".to_vec());
    let error = world.drive(manager.connect()).unwrap_err();
    assert_eq!(error.kind, ErrorKind::Parse);
    assert_eq!(world.tools_run(), Vec::<Tool>::new());
}

#[test]
fn client_that_cannot_be_spawned_is_a_launch_error() {
    let plan = manager().connect();
    let plan = plan.advance(Event::Contents(b"5432\n".to_vec()));
    let plan = plan.advance(Event::Failed(String::from("psql: No such file or directory")));
    assert_eq!(
        plan.outcome(),
        Some(Err(Error {
            kind: ErrorKind::Launch,
            message: String::from("psql: No such file or directory"),
        }))
    );
}

#[test]
fn client_that_fails_is_a_launch_error() {
    let plan = manager().connect();
    let plan = plan.advance(Event::Contents(b"5432".to_vec()));
    let plan = plan.advance(exited(false, "", "psql: connection refused"));
    assert_eq!(
        plan.outcome(),
        Some(Err(Error {
            kind: ErrorKind::Launch,
            message: String::from("Failed to run psql: 'psql: connection refused'"),
        }))
    );
}

#[test]
fn unreadable_marker_is_an_io_error() {
    let plan = manager().connect();
    let plan = plan.advance(Event::Failed(String::from("Permission denied")));
    assert_eq!(
        plan.outcome(),
        Some(Err(Error { kind: ErrorKind::Io, message: String::from("Permission denied") }))
    );
}

#[test]
fn an_event_that_answers_nothing_changes_nothing() {
    let plan = manager().new_db(5432);
    let before = plan.pending();
    let plan = plan.advance(Event::Done);
    assert_eq!(plan.pending(), before);
    let plan = plan.advance(Event::Present(true));
    assert_eq!(plan.pending(), before);
    let plan = plan.advance(Event::Missing);
    assert_eq!(plan.pending(), before);
    assert_eq!(plan.outcome(), None);
}

#[test]
fn a_finished_plan_stays_finished() {
    let plan = manager().delete();
    let plan = plan.advance(exited(true, "PostgreSQL 15.1", ""));
    let plan = plan.advance(Event::Present(false));
    assert!(plan.finished());
    let plan = plan.advance(Event::Failed(String::from("late")));
    assert!(plan.finished());
    assert_eq!(plan.outcome(), Some(Ok(())));
}
