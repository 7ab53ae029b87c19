//! Which PostgreSQL is installed.

use crate::chars::{chars_of, contains, mentions};
use crate::error::{plain_result, Error, ErrorKind, ErrorView};
use crate::process::{run, run_spec, Exit, ExitView};
use vstd::prelude::*;

verus! {

/// The supported major version that `text` names: the first of 14, 15 and 16
/// whose marker stands anywhere in it.
pub open spec fn supported_version(text: Seq<char>) -> Option<u8> {
    if mentions(text, "PostgreSQL 14"@) {
        Some(14u8)
    } else if mentions(text, "PostgreSQL 15"@) {
        Some(15u8)
    } else if mentions(text, "PostgreSQL 16"@) {
        Some(16u8)
    } else {
        None
    }
}

/// Finds the supported major version that `text` names.
pub fn detect(text: &str) -> (version: Option<u8>)
    ensures
        version == supported_version(text@),
{
    let chars = chars_of(text);
    if contains(chars.as_slice(), chars_of("PostgreSQL 14").as_slice()) {
        Some(14)
    } else if contains(chars.as_slice(), chars_of("PostgreSQL 15").as_slice()) {
        Some(15)
    } else if contains(chars.as_slice(), chars_of("PostgreSQL 16").as_slice()) {
        Some(16)
    } else {
        None
    }
}

/// What the end of the version query means: the supported major version that its
/// output names. A query that failed or wrote no text is a probe error; output
/// that names none of the supported versions is an unsupported version.
pub open spec fn version_spec(exit: ExitView) -> Result<u8, ErrorView> {
    match run_spec("pg_config"@, exit, ErrorKind::Probe) {
        Err(error) => Err(error),
        Ok(text) => match supported_version(text) {
            Some(version) => Ok(version),
            None => Err(
                ErrorView {
                    kind: ErrorKind::UnsupportedVersion,
                    message: "Unsupported Postgres version"@,
                },
            ),
        },
    }
}

/// Judges how the version query ended.
pub fn get_postgres_version(exit: &Exit) -> (result: Result<u8, Error>)
    ensures
        plain_result(result) == version_spec(exit@),
{
    match run("pg_config", exit, ErrorKind::Probe) {
        Err(error) => Err(error),
        Ok(text) => match detect(text.as_str()) {
            Some(version) => Ok(version),
            None => Err(Error::fixed(ErrorKind::UnsupportedVersion, "Unsupported Postgres version")),
        },
    }
}

} // verus!
