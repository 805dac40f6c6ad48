use vstd::prelude::*;

verus! {

/// Default port the server listens on.
pub const DEFAULT_PORT: u16 = 4433;

/// The server's options.
#[derive(Debug, Clone, Copy)]
pub struct Command {
    pub port: u16,
}

} // verus!
