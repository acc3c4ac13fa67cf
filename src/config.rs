use vstd::prelude::*;

verus! {

/// A persisted configuration record: the daemon's JSON-RPC address and the
/// feeds to read, by URI and by local path.
#[derive(Debug)]
pub struct Config {
    pub jsonrpc_address: String,
    pub uri: Option<Vec<String>>,
    pub file: Option<Vec<String>>,
}

impl Config {
    fn new() -> (r: Self)
        ensures
            r.jsonrpc_address@.len() == 0,
            r.uri matches Some(u) && u@.len() == 0,
            r.file matches Some(f) && f@.len() == 0,
    {
        Self { jsonrpc_address: String::new(), uri: Some(Vec::new()), file: Some(Vec::new()) }
    }

    /// The record written when there is none yet: no address, and empty
    /// lists of feeds.
    pub fn new_empty() -> (r: Self)
        ensures
            r.jsonrpc_address@.len() == 0,
            r.uri matches Some(u) && u@.len() == 0,
            r.file matches Some(f) && f@.len() == 0,
    {
        Config::new()
    }
}

} // verus!
