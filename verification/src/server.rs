//! The server application value: the configuration the embedding program
//! needs to bind and run the HTTP front end around the verified core.

use vstd::prelude::*;

verus! {

/// The server application: holds the port the HTTP front end binds to.
/// Binding, routing and worker startup are done by the embedding program.
pub struct RustServerApp {
    port: u16,
}

impl View for RustServerApp {
    type V = u16;

    closed spec fn view(&self) -> u16 {
        self.port
    }
}

impl RustServerApp {
    /// An application configured to listen on `port`.
    pub fn new(port: u16) -> (app: Self)
        ensures
            app@ == port,
    {
        RustServerApp { port }
    }

    /// The configured port.
    pub fn port(&self) -> (p: u16)
        ensures
            p == self@,
    {
        self.port
    }
}

} // verus!
