use vstd::prelude::*;
use vstd::string::StringExecFns;

verus! {

/// Result of the library's fallible operations.
pub type LResult<T> = Result<T, MockError>;

/// Every failure the tool can meet, with the context needed to describe it.
/// Paths are held as their text.
#[derive(Debug, PartialEq, Eq)]
pub enum MockError {
    UnparsableUri(String),
    UnknownScheme(String),
    NoScheme(String),
    UnableToGet,
    UnableToCreateFile(String),
    UnableToWriteToFile(String),
    NoChunk,
    RequestFailed(String, String),
    NoConfigFound(String),
    CantCreatePaths(String),
    MalformedConfig(String),
}

/// The one-line text shown to the operator for an error.
pub open spec fn message_of(e: MockError) -> Seq<char> {
    match e {
        MockError::UnparsableUri(u) => "unable to parse "@ + u@ + " as a uri"@,
        MockError::UnknownScheme(u) => "unknown scheme in "@ + u@,
        MockError::NoScheme(u) => "no scheme in "@ + u@,
        MockError::UnableToGet => "unable to initiate get request"@,
        MockError::UnableToCreateFile(f) => "unable to create file "@ + f@,
        MockError::UnableToWriteToFile(f) => "unable to write to file "@ + f@,
        MockError::NoChunk => "no chunk"@,
        MockError::RequestFailed(u, s) => "request to "@ + u@ + " failed with "@ + s@,
        MockError::NoConfigFound(p) => "no config found at "@ + p@,
        MockError::CantCreatePaths(p) => "can not create path for "@ + p@,
        MockError::MalformedConfig(p) => "malformed config at "@ + p@,
    }
}

fn text_with(head: &str, tail: &String) -> (r: String)
    ensures
        r@ == head@ + tail@,
{
    <String as StringExecFns>::from_str(head).concat(tail.as_str())
}

impl MockError {
    /// Renders the error as the line the operator reads.
    pub fn message(&self) -> (r: String)
        ensures
            r@ == message_of(*self),
    {
        match self {
            MockError::UnparsableUri(u) => text_with("unable to parse ", u).concat(" as a uri"),
            MockError::UnknownScheme(u) => text_with("unknown scheme in ", u),
            MockError::NoScheme(u) => text_with("no scheme in ", u),
            MockError::UnableToGet => <String as StringExecFns>::from_str(
                "unable to initiate get request",
            ),
            MockError::UnableToCreateFile(f) => text_with("unable to create file ", f),
            MockError::UnableToWriteToFile(f) => text_with("unable to write to file ", f),
            MockError::NoChunk => <String as StringExecFns>::from_str("no chunk"),
            MockError::RequestFailed(u, s) => text_with("request to ", u).concat(
                " failed with ",
            ).concat(s.as_str()),
            MockError::NoConfigFound(p) => text_with("no config found at ", p),
            MockError::CantCreatePaths(p) => text_with("can not create path for ", p),
            MockError::MalformedConfig(p) => text_with("malformed config at ", p),
        }
    }
}

} // verus!
