use vstd::prelude::*;

use crate::jsonrpc::JsonRPCError;

verus! {

/// Errors of the orchestration engine.
#[derive(Debug, Clone, Copy, PartialEq, Eq, Structural)]
pub enum Error {
    /// A feed item carries no enclosure to download.
    BadTorrentLink,
    /// A request builder was finalized before any method was chosen.
    JsonRPCNotReady,
    /// An episode was asked for something its state does not allow, or the
    /// daemon reported a status that the lifecycle does not know.
    ImpossibleEpisodeState,
    /// The daemon answered with an error, or with a malformed response.
    RPCServerError(JsonRPCError),
    /// The connectivity probe to the daemon failed.
    Aria2ConnectionError,
    /// A feed document could not be read as RSS.
    BadFeed,
}

impl Error {
    /// The human-readable description of the error.
    pub fn message(&self) -> (r: &'static str)
        ensures
            r@ == error_message(*self),
    {
        match self {
            Error::BadTorrentLink => "can not find torrent link",
            Error::JsonRPCNotReady => "jsonrpc not ready",
            Error::ImpossibleEpisodeState => "Impossible Episode State",
            Error::Aria2ConnectionError => "Can't connect to aria2",
            Error::BadFeed => "can not read feed",
            Error::RPCServerError(e) => e.message(),
        }
    }
}

/// The description that `Error::message` gives for each error.
pub open spec fn error_message(e: Error) -> Seq<char> {
    match e {
        Error::BadTorrentLink => "can not find torrent link"@,
        Error::JsonRPCNotReady => "jsonrpc not ready"@,
        Error::ImpossibleEpisodeState => "Impossible Episode State"@,
        Error::Aria2ConnectionError => "Can't connect to aria2"@,
        Error::BadFeed => "can not read feed"@,
        Error::RPCServerError(e) => crate::jsonrpc::rpc_error_message(e),
    }
}

impl From<JsonRPCError> for Error {
    fn from(value: JsonRPCError) -> (r: Self)
        ensures
            r == Error::RPCServerError(value),
    {
        Error::RPCServerError(value)
    }
}

impl vstd::std_specs::convert::FromSpecImpl<JsonRPCError> for Error {
    open spec fn obeys_from_spec() -> bool {
        true
    }

    open spec fn from_spec(v: JsonRPCError) -> Self {
        Error::RPCServerError(v)
    }
}

} // verus!
