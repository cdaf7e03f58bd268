use crate::config::{parse_uri, uri_parses, Endpoint};
use crate::errors::{message_of, LResult, MockError};
use vstd::prelude::*;
use vstd::string::StringExecFns;

verus! {

/// The client variant a request is sent with.
#[derive(Debug, Clone, Copy, PartialEq, Eq)]
pub enum Transport {
    Plain,
    Encrypted,
}

/// The transport selector's decision for a URI whose scheme is `scheme`.
pub open spec fn selected(scheme: Option<String>, uri: String) -> LResult<Transport> {
    match scheme {
        Some(s) => if s@ == "https"@ {
            Ok(Transport::Encrypted)
        } else if s@ == "http"@ {
            Ok(Transport::Plain)
        } else {
            Err(MockError::UnknownScheme(uri))
        },
        None => Err(MockError::NoScheme(uri)),
    }
}

/// Picks the transport for a URI from its scheme: `https` is encrypted,
/// `http` is plain, any other scheme or none is an error naming `uri`.
pub fn select_transport(scheme: &Option<String>, uri: &String) -> (r: LResult<Transport>)
    ensures
        r == selected(*scheme, *uri),
{
    match scheme {
        Some(s) => {
            if s.eq(&<String as StringExecFns>::from_str("https")) {
                Ok(Transport::Encrypted)
            } else if s.eq(&<String as StringExecFns>::from_str("http")) {
                Ok(Transport::Plain)
            } else {
                Err(MockError::UnknownScheme(uri.clone()))
            }
        },
        None => Err(MockError::NoScheme(uri.clone())),
    }
}

/// The scheme of the URI that hyper reads from the text.
pub uninterp spec fn uri_scheme(s: Seq<char>) -> Option<Seq<char>>;

/// The text hyper writes back for the URI it reads from the text.
pub uninterp spec fn uri_display(s: Seq<char>) -> Seq<char>;

/// Relies on `hyper::Uri::scheme_str`, on the URI parsed from `text`: the
/// scheme, when the URI has one.
#[verifier::external_body]
fn scheme_of(text: &str) -> (r: Option<String>)
    ensures
        uri_parses(text@) ==> match r {
            Some(x) => uri_scheme(text@) == Some(x@),
            None => uri_scheme(text@) is None,
        },
{
    match text.parse::<hyper::Uri>() {
        Ok(uri) => uri.scheme_str().map(String::from),
        Err(_) => None,
    }
}

/// Relies on `hyper::Uri`'s `Display`, on the URI parsed from `text`: the
/// text that errors about that URI carry.
#[verifier::external_body]
fn uri_text(text: &str) -> (r: String)
    ensures
        uri_parses(text@) ==> r@ == uri_display(text@),
{
    match text.parse::<hyper::Uri>() {
        Ok(uri) => uri.to_string(),
        Err(_) => String::new(),
    }
}

/// The transport a scheme is served by, if any.
pub open spec fn transport_for(scheme: Option<Seq<char>>) -> Option<Transport> {
    match scheme {
        Some(s) => if s == "https"@ {
            Some(Transport::Encrypted)
        } else if s == "http"@ {
            Some(Transport::Plain)
        } else {
            None
        },
        None => None,
    }
}

/// `e` is the error for a URI, shown as `text`, whose scheme has no transport.
pub open spec fn scheme_error(scheme: Option<Seq<char>>, e: MockError, text: Seq<char>) -> bool {
    match scheme {
        Some(_) => e is UnknownScheme && e->UnknownScheme_0@ == text,
        None => e is NoScheme && e->NoScheme_0@ == text,
    }
}

/// Selects the transport for the URI written as `uri`. An unparsable text
/// is reported as such; an error about the scheme names the URI as hyper
/// writes it.
pub fn build_request(uri: &String) -> (r: LResult<Transport>)
    ensures
        !uri_parses(uri@) ==> r == Err::<Transport, MockError>(MockError::UnparsableUri(*uri)),
        uri_parses(uri@) ==> match transport_for(uri_scheme(uri@)) {
            Some(t) => r == Ok::<Transport, MockError>(t),
            None => r is Err && scheme_error(uri_scheme(uri@), r->Err_0, uri_display(uri@)),
        },
{
    match parse_uri(uri.as_str()) {
        Ok(_) => {},
        Err(_) => return Err(MockError::UnparsableUri(uri.clone())),
    }
    let scheme = scheme_of(uri.as_str());
    let text = uri_text(uri.as_str());
    select_transport(&scheme, &text)
}

/// Whether a response with this status code is written out: 2xx and 3xx.
pub open spec fn successful_code(code: u16) -> bool {
    200 <= code < 400
}

/// Classifies a response status: success is any 2xx or 3xx code.
pub fn is_successful(code: u16) -> (r: bool)
    ensures
        r == successful_code(code),
{
    200 <= code && code < 400
}

/// The decimal digit `d`.
pub open spec fn digit(d: nat) -> char {
    if d == 0 { '0' }
    else if d == 1 { '1' }
    else if d == 2 { '2' }
    else if d == 3 { '3' }
    else if d == 4 { '4' }
    else if d == 5 { '5' }
    else if d == 6 { '6' }
    else if d == 7 { '7' }
    else if d == 8 { '8' }
    else { '9' }
}

/// `n` written in decimal.
pub open spec fn decimal(n: nat) -> Seq<char>
    decreases n,
{
    if n < 10 {
        seq![digit(n)]
    } else {
        decimal(n / 10) + seq![digit(n % 10)]
    }
}

/// The canonical reason phrase hyper gives a status code, or its text for a
/// code without one.
pub uninterp spec fn reason_phrase(code: u16) -> Seq<char>;

/// How a status is shown: the code, a space, and its reason phrase.
pub open spec fn status_line(code: u16) -> Seq<char> {
    decimal(code as nat) + " "@ + reason_phrase(code)
}

/// Relies on `hyper::StatusCode::from_u16`, which accepts 100 to 999, and on
/// `StatusCode`'s `Display`, which writes the code, a space and the canonical
/// reason (or a fixed text where there is none).
#[verifier::external_body]
fn status_text(code: u16) -> (r: String)
    requires
        100 <= code < 1000,
    ensures
        r@ == decimal(code as nat) + " "@ + reason_phrase(code),
{
    match hyper::StatusCode::from_u16(code) {
        Ok(status) => status.to_string(),
        Err(_) => String::new(),
    }
}

/// Decides what a response status means for the fetch of `uri`.
pub fn check_status(uri: &String, code: u16) -> (r: LResult<()>)
    requires
        100 <= code < 1000,
    ensures
        successful_code(code) ==> r is Ok,
        !successful_code(code) ==> r is Err && failed_with(r->Err_0, *uri, code),
{
    if is_successful(code) {
        Ok(())
    } else {
        Err(MockError::RequestFailed(uri.clone(), status_text(code)))
    }
}

/// `e` is the failure of a request to `uri` answered with `code`.
pub open spec fn failed_with(e: MockError, uri: String, code: u16) -> bool {
    match e {
        MockError::RequestFailed(u, s) => u == uri && s@ == status_line(code),
        _ => false,
    }
}

/// Where one endpoint's fetch stands. The state also names what the driver
/// does next: send the request, create the file, read a chunk, write it, or
/// stop.
#[derive(Debug)]
pub enum FetchState {
    Requesting(Transport),
    Creating,
    Reading,
    Writing,
    Done,
    Failed(MockError),
}

/// What the driver reports after doing what the state asked for.
#[derive(Debug, Clone, Copy, PartialEq, Eq)]
pub enum FetchEvent {
    Responded(u16),
    GetFailed,
    FileCreated,
    CreateFailed,
    ChunkRead,
    BodyEnded,
    ChunkFailed,
    ChunkWritten,
    WriteFailed,
}

/// One endpoint's fetch: the parsed URI, its text, the destination file and
/// the current state.
#[derive(Debug)]
pub struct FetchTask {
    pub uri: hyper::Uri,
    pub uri_text: String,
    pub file: String,
    pub state: FetchState,
}

/// The state that follows `s` on `e` for a fetch of `uri` into `file`; an
/// event that does not fit the state leaves it as it is.
pub open spec fn stepped(s: FetchState, e: FetchEvent, n: FetchState, uri: String, file: String) -> bool {
    match (s, e) {
        (FetchState::Requesting(_), FetchEvent::Responded(code)) => if successful_code(code) {
            n is Creating
        } else {
            n is Failed && failed_with(n->Failed_0, uri, code)
        },
        (FetchState::Requesting(_), FetchEvent::GetFailed) => n == FetchState::Failed(MockError::UnableToGet),
        (FetchState::Creating, FetchEvent::FileCreated) => n is Reading,
        (FetchState::Creating, FetchEvent::CreateFailed) => n == FetchState::Failed(MockError::UnableToCreateFile(file)),
        (FetchState::Reading, FetchEvent::ChunkRead) => n is Writing,
        (FetchState::Reading, FetchEvent::BodyEnded) => n is Done,
        (FetchState::Reading, FetchEvent::ChunkFailed) => n == FetchState::Failed(MockError::NoChunk),
        (FetchState::Writing, FetchEvent::ChunkWritten) => n is Reading,
        (FetchState::Writing, FetchEvent::WriteFailed) => n == FetchState::Failed(MockError::UnableToWriteToFile(file)),
        _ => n == s,
    }
}

/// A status code as hyper holds it.
pub open spec fn valid_event(e: FetchEvent) -> bool {
    e is Responded ==> 100 <= e->Responded_0 < 1000
}

impl FetchTask {
    /// Resolves the endpoint: parses its URI and selects the transport.
    pub fn start(endpoint: Endpoint) -> (r: LResult<FetchTask>)
        ensures
            !uri_parses(endpoint.uri@) ==> r == Err::<FetchTask, MockError>(
                MockError::UnparsableUri(endpoint.uri),
            ),
            uri_parses(endpoint.uri@) ==> match transport_for(uri_scheme(endpoint.uri@)) {
                Some(t) => r is Ok && r->Ok_0.state == FetchState::Requesting(t) && r->Ok_0.file
                    == endpoint.file && r->Ok_0.uri_text@ == uri_display(endpoint.uri@),
                None => r is Err && scheme_error(
                    uri_scheme(endpoint.uri@),
                    r->Err_0,
                    uri_display(endpoint.uri@),
                ),
            },
    {
        let uri = match endpoint.get_uri() {
            Ok(u) => u,
            Err(e) => return Err(e),
        };
        match build_request(&endpoint.uri) {
            Ok(t) => {
                let uri_text = uri_text(endpoint.uri.as_str());
                Ok(FetchTask { uri, uri_text, file: endpoint.file, state: FetchState::Requesting(t) })
            },
            Err(e) => Err(e),
        }
    }

    /// Moves the fetch on by one event.
    pub fn step(&mut self, event: FetchEvent)
        requires
            valid_event(event),
        ensures
            final(self).uri == old(self).uri,
            final(self).uri_text == old(self).uri_text,
            final(self).file == old(self).file,
            stepped(old(self).state, event, final(self).state, old(self).uri_text, old(self).file),
    {
        match (&self.state, event) {
            (FetchState::Requesting(_), FetchEvent::Responded(code)) => {
                self.state = match check_status(&self.uri_text, code) {
                    Ok(()) => FetchState::Creating,
                    Err(e) => FetchState::Failed(e),
                };
            },
            (FetchState::Requesting(_), FetchEvent::GetFailed) => {
                self.state = FetchState::Failed(MockError::UnableToGet);
            },
            (FetchState::Creating, FetchEvent::FileCreated) => {
                self.state = FetchState::Reading;
            },
            (FetchState::Creating, FetchEvent::CreateFailed) => {
                self.state = FetchState::Failed(MockError::UnableToCreateFile(self.file.clone()));
            },
            (FetchState::Reading, FetchEvent::ChunkRead) => {
                self.state = FetchState::Writing;
            },
            (FetchState::Reading, FetchEvent::BodyEnded) => {
                self.state = FetchState::Done;
            },
            (FetchState::Reading, FetchEvent::ChunkFailed) => {
                self.state = FetchState::Failed(MockError::NoChunk);
            },
            (FetchState::Writing, FetchEvent::ChunkWritten) => {
                self.state = FetchState::Reading;
            },
            (FetchState::Writing, FetchEvent::WriteFailed) => {
                self.state = FetchState::Failed(MockError::UnableToWriteToFile(self.file.clone()));
            },
            _ => {},
        }
    }

    /// The outcome once the fetch has stopped; `None` while it is running.
    pub fn finish(self) -> (r: Option<LResult<()>>)
        ensures
            match self.state {
                FetchState::Done => r == Some(Ok::<(), MockError>(())),
                FetchState::Failed(e) => r == Some(Err::<(), MockError>(e)),
                _ => r is None,
            },
    {
        match self.state {
            FetchState::Done => Some(Ok(())),
            FetchState::Failed(e) => Some(Err(e)),
            _ => None,
        }
    }
}

/// A fetch reaches success only from reading, on the end of the body: every
/// chunk read before has been written, and none is waiting.
pub proof fn lemma_done_only_at_body_end(
    s: FetchState,
    e: FetchEvent,
    n: FetchState,
    uri: String,
    file: String,
)
    requires
        stepped(s, e, n, uri, file),
        n is Done,
        !(s is Done),
    ensures
        s is Reading,
        e == FetchEvent::BodyEnded,
{
}

/// The lines the operator is shown for a batch: one per failed fetch, in
/// launch order; successes say nothing.
pub open spec fn report_of(outcomes: Seq<LResult<()>>) -> Seq<Seq<char>>
    decreases outcomes.len(),
{
    if outcomes.len() == 0 {
        Seq::empty()
    } else {
        let last = outcomes.last();
        let rest = report_of(outcomes.drop_last());
        match last {
            Ok(_) => rest,
            Err(e) => rest.push(message_of(e)),
        }
    }
}

/// Renders the diagnostics of a finished batch.
pub fn report(outcomes: &Vec<LResult<()>>) -> (r: Vec<String>)
    ensures
        r@.map_values(|s: String| s@) == report_of(outcomes@),
{
    let mut lines: Vec<String> = Vec::new();
    let n = outcomes.len();
    let mut i: usize = 0;
    while i < n
        invariant
            n == outcomes@.len(),
            i <= n,
            lines@.map_values(|s: String| s@) == report_of(outcomes@.subrange(0, i as int)),
        decreases n - i,
    {
        let ghost before = lines@;
        proof {
            assert(outcomes@.subrange(0, i as int + 1).drop_last() =~= outcomes@.subrange(0, i as int));
        }
        match &outcomes[i] {
            Ok(_) => {},
            Err(e) => {
                lines.push(e.message());
                assert(lines@.map_values(|s: String| s@) =~= before.map_values(|s: String| s@).push(
                    message_of(*e),
                ));
            },
        }
        i = i + 1;
    }
    assert(outcomes@.subrange(0, n as int) =~= outcomes@);
    lines
}

/// The process exit status: 1 when setting up the batch failed, else 0,
/// whatever became of the single fetches.
pub fn exit_code(setup: &LResult<()>) -> (r: i32)
    ensures
        r == (if setup is Ok { 0i32 } else { 1i32 }),
{
    match setup {
        Ok(_) => 0,
        Err(_) => 1,
    }
}

/// A batch in which every fetch succeeded reports nothing.
pub proof fn lemma_all_succeeded_silent(outcomes: Seq<LResult<()>>)
    requires
        forall|i: int| 0 <= i < outcomes.len() ==> (#[trigger] outcomes[i]) is Ok,
    ensures
        report_of(outcomes) == Seq::<Seq<char>>::empty(),
    decreases outcomes.len(),
{
    if outcomes.len() > 0 {
        let rest = outcomes.drop_last();
        assert forall|i: int| 0 <= i < rest.len() implies (#[trigger] rest[i]) is Ok by {
            assert(rest[i] == outcomes[i]);
        }
        lemma_all_succeeded_silent(rest);
        assert(outcomes[outcomes.len() - 1] is Ok);
    }
}

/// Failures are isolated: when exactly one fetch of a batch fails, the batch
/// still reports on all of them, and the report is that fetch's one line.
pub proof fn lemma_one_failure_one_line(outcomes: Seq<LResult<()>>, k: int)
    requires
        0 <= k < outcomes.len(),
        outcomes[k] is Err,
        forall|i: int| 0 <= i < outcomes.len() && i != k ==> (#[trigger] outcomes[i]) is Ok,
    ensures
        report_of(outcomes) == seq![message_of(outcomes[k]->Err_0)],
    decreases outcomes.len(),
{
    let rest = outcomes.drop_last();
    if k == outcomes.len() - 1 {
        assert forall|i: int| 0 <= i < rest.len() implies (#[trigger] rest[i]) is Ok by {
            assert(rest[i] == outcomes[i]);
        }
        lemma_all_succeeded_silent(rest);
        assert(Seq::<Seq<char>>::empty().push(message_of(outcomes[k]->Err_0)) =~= seq![
            message_of(outcomes[k]->Err_0),
        ]);
    } else {
        assert forall|i: int| 0 <= i < rest.len() && i != k implies (#[trigger] rest[i]) is Ok by {
            assert(rest[i] == outcomes[i]);
        }
        assert(rest[k] == outcomes[k]);
        lemma_one_failure_one_line(rest, k);
        assert(outcomes[outcomes.len() - 1] is Ok);
    }
}

} // verus!
