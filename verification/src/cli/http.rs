//! Options of the `http` commands.

use vstd::prelude::*;

verus! {

/// The `http` commands.
#[derive(Debug, Clone, PartialEq, Eq)]
pub enum HttpSubCommand {
    /// Serve a directory.
    Serve(HttpServeOpts),
}

/// What to serve, and where.
#[derive(Debug, Clone, PartialEq, Eq)]
pub struct HttpServeOpts {
    /// The directory to serve.
    pub dir: String,
    /// The port to listen on.
    pub port: u16,
}

} // verus!
