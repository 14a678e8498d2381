//! The decisions of the command line: what a run does, its version line and
//! its exit status.
use vstd::prelude::*;

verus! {

/// What the program does for the flags it was given.
#[derive(Debug, Clone, Copy, PartialEq, Eq, Structural)]
pub enum Command {
    /// Print the version line and stop with success.
    ShowVersion,
    /// Compile the schema and check the instances.
    Validate,
    /// No schema was given: nothing to do, which is a success.
    Nothing,
}

/// The command for the version flag and whether a schema path was given.
pub open spec fn command_spec(version: bool, has_schema: bool) -> Command {
    if version {
        Command::ShowVersion
    } else if has_schema {
        Command::Validate
    } else {
        Command::Nothing
    }
}

/// Decides the command. The version flag wins over everything else.
pub fn command_for(version: bool, has_schema: bool) -> (r: Command)
    ensures
        r == command_spec(version, has_schema),
        version ==> r == Command::ShowVersion,
{
    if version {
        Command::ShowVersion
    } else if has_schema {
        Command::Validate
    } else {
        Command::Nothing
    }
}

/// The process exit status for an overall result.
pub open spec fn exit_status(success: bool) -> i32 {
    if success { 0 } else { 1 }
}

/// The process exit status for an overall result: 0 on success, 1 otherwise.
pub fn exit_code(success: bool) -> (r: i32)
    ensures
        r == exit_status(success),
{
    if success { 0 } else { 1 }
}

/// The line printed for the version flag.
pub fn version_line(version: &str) -> (r: String)
    ensures
        r@ == "Version: "@ + version@,
{
    let mut s = String::from_str("Version: ");
    s.append(version);
    s
}

} // verus!
