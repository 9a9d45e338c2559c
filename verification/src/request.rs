//! The fixed request the engine sends each cycle.
//!
//! The server takes one listing command, form-encoded as a single `json`
//! field whose value is a JSON array `[command, [], {options}]` with exactly
//! one option enabling license listing.  The payload never varies per
//! cycle; only the target URL is configuration, and posting the form is the
//! caller's transport concern.

use vstd::prelude::*;

verus! {

/// The options the server's listing command understands.  The engine sends
/// only `show_licenses`; the rest stay at their wire defaults.
#[derive(Clone, Copy, Debug, PartialEq, Eq, Structural)]
pub struct RequestParams {
    pub short_form: bool,
    pub expires: i32,
    pub server_data: bool,
    pub show_all: bool,
    pub show_version: bool,
    pub only_version: bool,
    pub show_server: bool,
    pub show_users: bool,
    pub show_licenses: bool,
}

/// The commands the engine can issue.
#[derive(Clone, Copy, Debug, PartialEq, Eq, Structural)]
pub enum Command {
    /// List the server's licenses.
    CmdLs,
}

impl Command {
    /// The command's wire name.
    pub fn name(&self) -> (r: &'static str)
        ensures
            self is CmdLs ==> r@ == "cmd_ls"@,
    {
        match self {
            Command::CmdLs => "cmd_ls",
        }
    }
}

/// The value of the form's `json` field: the listing command with license
/// listing enabled, exactly as the server expects it on the wire.
pub fn command_payload() -> (r: String)
    ensures
        r@ == "[\"cmd_ls\",[],{\"show_licenses\":true}]"@,
{
    "[\"cmd_ls\",[],{\"show_licenses\":true}]".to_owned()
}

/// The name of the single form field carrying the payload.
pub fn form_field() -> (r: &'static str)
    ensures
        r@ == "json"@,
{
    "json"
}

} // verus!
