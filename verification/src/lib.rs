//! A debug tap for the traffic between a frontend and its backend.
//!
//! When debug mode is on, every command invocation, response, emitted event
//! and error is rendered as a framed, timestamped block of text and written
//! to a named pipe that a detached tmux session follows.
//!
//! The library decides and formats; it performs no input or output itself.
//! See [`host`] for how its decisions reach the outside world.

use vstd::prelude::*;
use vstd::string::*;
use crate::host::HostAction;
use crate::tmux::{setup_action, setup_start, SessionSetup, SetupPhase, TmuxSession};

pub mod host;
pub mod tmux;
pub mod logger;
pub mod model;

verus! {

/// The name of the session that debug mode opens.
pub const DEBUG_SESSION_NAME: &'static str = "app-debug";

/// Whether a value of the debug setting switches debug mode on: `1` does,
/// and so does `true` in any mix of upper and lower case. Nothing else does.
pub open spec fn enables_debug(value: Seq<char>) -> bool {
    ||| value.len() == 1 && value[0] == '1'
    ||| {
        &&& value.len() == 4
        &&& (value[0] == 't' || value[0] == 'T')
        &&& (value[1] == 'r' || value[1] == 'R')
        &&& (value[2] == 'u' || value[2] == 'U')
        &&& (value[3] == 'e' || value[3] == 'E')
    }
}

/// Whether debug mode is on, given the debug setting as the process found
/// it at its start; a setting that is absent leaves debug mode off.
pub open spec fn debug_enabled(setting: Option<&str>) -> bool {
    match setting {
        Some(value) => enables_debug(value@),
        None => false,
    }
}

/// Tells whether debug mode is on. The setting is read once, by the caller,
/// and handed in.
pub fn is_debug_enabled(setting: Option<&str>) -> (enabled: bool)
    ensures
        enabled == debug_enabled(setting),
{
    match setting {
        None => false,
        Some(value) => {
            let n: usize = value.unicode_len();
            if n == 1 {
                let c = value.get_char(0);
                c == '1'
            } else if n == 4 {
                let t = value.get_char(0);
                let r = value.get_char(1);
                let u = value.get_char(2);
                let e = value.get_char(3);
                (t == 't' || t == 'T') && (r == 'r' || r == 'R') && (u == 'u' || u == 'U') && (e
                    == 'e' || e == 'E')
            } else {
                false
            }
        },
    }
}

/// Switches debug mode on if the setting says so: begins to create the
/// session called [`DEBUG_SESSION_NAME`]. With debug mode off there is
/// nothing to carry out and nothing is created.
pub fn activate(setting: Option<&str>) -> (start: Option<(SessionSetup, HostAction)>)
    ensures
        start is Some <==> debug_enabled(setting),
        start matches Some(begun) ==> {
            &&& begun.0@ == setup_start(DEBUG_SESSION_NAME@)
            &&& begun.1@ == setup_action(DEBUG_SESSION_NAME@, SetupPhase::ClearStale)
        },
{
    if is_debug_enabled(setting) {
        proof {
            reveal_strlit("app-debug");
        }
        Some(TmuxSession::create(DEBUG_SESSION_NAME))
    } else {
        None
    }
}

} // verus!
