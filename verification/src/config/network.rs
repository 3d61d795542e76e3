//! Interprocess networking settings.

use vstd::prelude::*;

verus! {

/// Settings of the interprocess pipe.
pub struct NetworkConfig {
    pub pipe_name: String,
}

impl NetworkConfig {
    /// The default pipe name.
    pub fn new() -> (c: NetworkConfig)
        ensures
            c.pipe_name@ == "saya-pipe"@,
    {
        NetworkConfig { pipe_name: String::from_str("saya-pipe") }
    }

    /// The full path of the named pipe.
    pub fn windows_pipe_path(&self) -> (r: String)
        ensures
            r@ == "\\\\.\\pipe\\"@ + self.pipe_name@,
    {
        String::from_str("\\\\.\\pipe\\").concat(self.pipe_name.as_str())
    }
}

impl Default for NetworkConfig {
    /// The default pipe name.
    fn default() -> (c: NetworkConfig)
        ensures
            c.pipe_name@ == "saya-pipe"@,
    {
        NetworkConfig::new()
    }
}

} // verus!
