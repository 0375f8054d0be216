//! Settings of the music player connection.
use vstd::prelude::*;

verus! {

/// Where the music player daemon listens.
pub struct MpdConfig {
    pub host: String,
    pub port: u16,
}

impl MpdConfig {
    pub fn new(host: String, port: u16) -> (r: MpdConfig)
        ensures
            r.host@ == host@,
            r.port == port,
    {
        MpdConfig { host, port }
    }
}

} // verus!
