use vstd::prelude::*;

use crate::dispatch::{texts, NODE};
use crate::text::same_text;

verus! {

/// The one context server this extension knows how to start.
pub const SERVER_ID: &'static str = "overleaf";

/// Script, relative to the extension directory, that serves the context.
pub const SERVER_SCRIPT: &'static str = "server/index.js";

/// Error returned for any other context server id.
pub const UNKNOWN_SERVER: &'static str = "Unknown context server";

/// How to start the context server: a program, its arguments and extra
/// environment variables.
pub struct ServerLaunch {
    pub program: String,
    pub args: Vec<String>,
    pub env: Vec<(String, String)>,
}

/// The command that starts the context server `id`, or an error for an id
/// that is not this extension's.
pub fn context_server_launch(id: &str) -> (r: Result<ServerLaunch, String>)
    ensures
        r is Ok <==> id@ == SERVER_ID@,
        r is Ok ==> r->Ok_0.program@ == NODE@ && texts(r->Ok_0.args@) == seq![SERVER_SCRIPT@]
            && r->Ok_0.env@.len() == 0,
        r is Err ==> r->Err_0@ == UNKNOWN_SERVER@,
{
    if !same_text(id, SERVER_ID) {
        return Err(String::from_str(UNKNOWN_SERVER));
    }
    let args = vec![String::from_str(SERVER_SCRIPT)];
    assert(texts(args@) =~= seq![SERVER_SCRIPT@]);
    Ok(ServerLaunch { program: String::from_str(NODE), args, env: Vec::new() })
}

} // verus!
