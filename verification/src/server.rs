//! The local preview server's settings. Serving files is I/O and lives
//! outside the library.

use vstd::prelude::*;

verus! {

/// Where the preview server listens.
pub struct Server {
    pub address: String,
    pub port: u16,
}

impl Server {
    /// A server bound to the given address and port.
    pub fn new(address: String, port: u16) -> (r: Server)
        ensures
            r.address@ == address@,
            r.port == port,
    {
        Server { address, port }
    }
}

} // verus!
