//! Lifecycle of one local, throw-away PostgreSQL instance.
//!
//! The instance lives in one directory below the user's home location: a port
//! marker, which records the port of its server, and the data directory of the
//! database engine. [`pgtemp::PgTemp`] knows where these lie and what they say.
//! What is to be done to create, enter or destroy the instance is laid out by a
//! [`plan::Plan`], one action at a time: the plan touches neither the disk nor a
//! process itself, its caller does, and reports what came of it.
//!
//! [`model`] describes the disk that the plans work on, and [`laws`] proves what
//! the operations come to on it.

pub mod chars;
pub mod cli;
pub mod decimal;
pub mod error;
pub mod laws;
pub mod model;
pub mod pgtemp;
pub mod plan;
pub mod process;
pub mod tools;
pub mod version;
