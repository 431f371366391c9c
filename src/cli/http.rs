//! Options of the HTTP command.
use vstd::prelude::*;

verus! {

/// Serves a directory over HTTP.
#[derive(Debug, Clone)]
pub struct HttpServeOpts {
    pub path: String,
    pub port: u16,
}

/// The HTTP commands.
#[derive(Debug, Clone)]
pub enum HttpSubCommand {
    Serve(HttpServeOpts),
}

} // verus!
