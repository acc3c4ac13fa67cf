use vstd::prelude::*;

verus! {

/// A configuration record in the same shape as `Config`, loaded as an asset
/// that can be reloaded when its file changes.
#[derive(Debug)]
pub struct NovelConfig {
    pub jsonrpc_address: String,
    pub uri: Option<Vec<String>>,
    pub file: Option<Vec<String>>,
}

} // verus!
