//! Command-line arguments of the proxy binary.

use vstd::prelude::*;

verus! {

/// Port the proxy listens on when none is given.
pub const DEFAULT_PORT: u16 = 6188;

/// What the command line of the server accepts.
#[derive(Debug, Clone)]
pub struct ProxyArgs {
    /// The port that the proxy listens on.
    pub port: u16,
    /// List of upstream servers, separated by commas.
    pub upstreams: String,
}

} // verus!
