use crate::errors::MockError;
use vstd::prelude::*;

verus! {

/// One remote resource and the file its body is written to.
#[derive(Debug)]
pub struct Endpoint {
    pub uri: String,
    pub file: String,
}

/// The loaded configuration: optional shared prefixes and the endpoints.
#[derive(Debug)]
pub struct Config {
    pub base_uri: Option<String>,
    pub file_path_prefix: Option<String>,
    pub endpoints: Vec<Endpoint>,
}

#[verifier::external_type_specification]
#[verifier::external_body]
pub struct ExUri(hyper::Uri);

#[verifier::external_type_specification]
#[verifier::external_body]
pub struct ExInvalidUri(hyper::http::uri::InvalidUri);

/// Whether hyper accepts the text as a URI.
pub uninterp spec fn uri_parses(s: Seq<char>) -> bool;

/// The path that `PathBuf::push` makes of `prefix` and `path`, as text.
pub uninterp spec fn joined_path(prefix: Seq<char>, path: Seq<char>) -> Seq<char>;

/// Relies on `<hyper::Uri as FromStr>::from_str`: it succeeds exactly on the
/// texts that hyper accepts as a URI.
#[verifier::external_body]
pub(crate) fn parse_uri(s: &str) -> (r: Result<hyper::Uri, hyper::http::uri::InvalidUri>)
    ensures
        r is Ok <==> uri_parses(s@),
{
    s.parse::<hyper::Uri>()
}

/// Relies on `std::path::PathBuf::push`: `path` is appended to `prefix` by the
/// platform's rules, and the joined path is read back as text.
#[verifier::external_body]
fn join_path(prefix: &String, path: &String) -> (r: String)
    ensures
        r@ == joined_path(prefix@, path@),
{
    let mut joined = std::path::PathBuf::from(prefix);
    joined.push(path);
    joined.to_string_lossy().into_owned()
}

/// The URI of an endpoint once the optional base URI is put in front of it.
pub open spec fn prefixed_uri(base_uri: Option<String>, uri: Seq<char>) -> Seq<char> {
    match base_uri {
        Some(b) => b@ + uri,
        None => uri,
    }
}

/// The file of an endpoint once the optional directory prefix is joined to it.
pub open spec fn prefixed_file(prefix: Option<String>, file: Seq<char>) -> Seq<char> {
    match prefix {
        Some(p) => joined_path(p@, file),
        None => file,
    }
}

/// The override when there is one, else the configured value.
pub open spec fn chosen(over: Option<String>, configured: Option<String>) -> Option<String> {
    match over {
        Some(v) => Some(v),
        None => configured,
    }
}

fn choose_prefix(over: Option<String>, configured: &Option<String>) -> (r: Option<String>)
    ensures
        r == chosen(over, *configured),
{
    match over {
        Some(v) => Some(v),
        None => match configured {
            Some(c) => Some(c.clone()),
            None => None,
        },
    }
}

impl Endpoint {
    /// Parses the endpoint's URI.
    pub fn get_uri(&self) -> (r: Result<hyper::Uri, MockError>)
        ensures
            r is Ok <==> uri_parses(self.uri@),
            r is Err ==> r->Err_0 == MockError::UnparsableUri(self.uri),
    {
        match parse_uri(self.uri.as_str()) {
            Ok(u) => Ok(u),
            Err(_) => Err(MockError::UnparsableUri(self.uri.clone())),
        }
    }

    /// The endpoint with the optional base URI and directory prefix applied.
    pub fn normalized(&self, base_uri: &Option<String>, file_path_prefix: &Option<String>) -> (r:
        Endpoint)
        ensures
            r.uri@ == prefixed_uri(*base_uri, self.uri@),
            r.file@ == prefixed_file(*file_path_prefix, self.file@),
    {
        let uri = match base_uri {
            Some(b) => {
                let mut u = b.clone();
                u.append(self.uri.as_str());
                u
            },
            None => self.uri.clone(),
        };
        let file = match file_path_prefix {
            Some(p) => join_path(p, &self.file),
            None => self.file.clone(),
        };
        Endpoint { uri, file }
    }

    /// Applies the optional base URI and directory prefix in place.
    pub fn normalize(&mut self, base_uri: &Option<String>, file_path_prefix: &Option<String>)
        ensures
            final(self).uri@ == prefixed_uri(*base_uri, old(self).uri@),
            final(self).file@ == prefixed_file(*file_path_prefix, old(self).file@),
    {
        let n = self.normalized(base_uri, file_path_prefix);
        *self = n;
    }
}

impl Default for Config {
    fn default() -> (r: Config)
        ensures
            r.base_uri is None,
            r.file_path_prefix is None,
            r.endpoints@.len() == 0,
    {
        Config { endpoints: Vec::new(), base_uri: None, file_path_prefix: None }
    }
}

impl Config {
    /// Normalises every endpoint. A given `base_uri` or `file_path_prefix`
    /// overrides the configured one. Returns the directory prefix in force,
    /// which the caller must create before any file is written under it.
    pub fn normalize(&mut self, base_uri: Option<String>, file_path_prefix: Option<String>) -> (r:
        Option<String>)
        ensures
            r == chosen(file_path_prefix, old(self).file_path_prefix),
            final(self).base_uri == old(self).base_uri,
            final(self).file_path_prefix == old(self).file_path_prefix,
            final(self).endpoints@.len() == old(self).endpoints@.len(),
            forall|i: int|
                0 <= i < final(self).endpoints@.len() ==> {
                    &&& (#[trigger] final(self).endpoints@[i]).uri@ == prefixed_uri(
                        chosen(base_uri, old(self).base_uri),
                        old(self).endpoints@[i].uri@,
                    )
                    &&& final(self).endpoints@[i].file@ == prefixed_file(
                        chosen(file_path_prefix, old(self).file_path_prefix),
                        old(self).endpoints@[i].file@,
                    )
                },
    {
        let uri = choose_prefix(base_uri, &self.base_uri);
        let path_prefix = choose_prefix(file_path_prefix, &self.file_path_prefix);
        let mut out: Vec<Endpoint> = Vec::new();
        let n = self.endpoints.len();
        let mut i: usize = 0;
        while i < n
            invariant
                n == self.endpoints@.len(),
                self == old(self),
                i <= n,
                out@.len() == i,
                uri == chosen(base_uri, old(self).base_uri),
                path_prefix == chosen(file_path_prefix, old(self).file_path_prefix),
                forall|j: int|
                    0 <= j < i ==> {
                        &&& (#[trigger] out@[j]).uri@ == prefixed_uri(uri, self.endpoints@[j].uri@)
                        &&& out@[j].file@ == prefixed_file(path_prefix, self.endpoints@[j].file@)
                    },
            decreases n - i,
        {
            let e = self.endpoints[i].normalized(&uri, &path_prefix);
            out.push(e);
            i = i + 1;
        }
        self.endpoints = out;
        path_prefix
    }
}

} // verus!
