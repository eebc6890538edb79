//! The remote wire-protocol client: batched SQL over stateful HTTP
//! streams.
//!
//! Each logical transaction is identified by a caller-chosen id (`0`
//! meaning autocommit). For an active transaction the client keeps a
//! session cookie — the server's continuation token ("baton") and an
//! optional base-URL override — and every request for that transaction
//! must carry the baton the previous response returned.
//!
//! The client builds a request envelope and consumes a response
//! envelope; carrying the envelope over HTTP, and encoding it as JSON,
//! happens at the crate's edge, which hands the decoded response back
//! to [`Client::apply_execute_response`] or [`Client::batch_outcome`].

use vstd::prelude::*;

use std::collections::HashMap;
use std::collections::HashSet;

use crate::errors::{Error, HranaError, StreamResponseError};
use crate::params::{Params, Value};

verus! {

broadcast use vstd::std_specs::hash::group_hash_axioms;

/// One named argument of a statement.
#[derive(Debug)]
pub struct NamedArg {
    pub name: String,
    pub value: Value,
}

/// One statement of the wire protocol.
#[derive(Debug)]
pub struct Stmt {
    pub sql: String,
    pub args: Vec<Value>,
    pub named_args: Vec<NamedArg>,
    pub want_rows: bool,
}

impl Stmt {
    /// A statement with no arguments bound yet.
    pub fn new(sql: &str, want_rows: bool) -> (r: Stmt)
        ensures
            r.sql@ == sql@,
            r.args@ == Seq::<Value>::empty(),
            r.named_args@ == Seq::<NamedArg>::empty(),
            r.want_rows == want_rows,
    {
        Stmt { sql: sql.to_owned(), args: Vec::new(), named_args: Vec::new(), want_rows }
    }

    /// Binds one positional argument, after those already bound.
    pub fn bind(&mut self, value: Value)
        ensures
            final(self).sql == old(self).sql,
            final(self).want_rows == old(self).want_rows,
            final(self).args@ == old(self).args@.push(value),
            final(self).named_args == old(self).named_args,
    {
        self.args.push(value);
    }

    /// Binds one named argument, after those already bound.
    pub fn bind_named(&mut self, name: String, value: Value)
        ensures
            final(self).sql == old(self).sql,
            final(self).want_rows == old(self).want_rows,
            final(self).args == old(self).args,
            final(self).named_args@ == old(self).named_args@.push((NamedArg { name, value })),
    {
        self.named_args.push(NamedArg { name, value });
    }

    /// A statement with the given parameters bound in order.
    pub fn with_params(sql: &str, params: Params, want_rows: bool) -> (r: Stmt)
        ensures
            stmt_planned(r, sql@, params, want_rows),
    {
        let args = match params {
            Params::Empty => Vec::new(),
            Params::Positional(vs) => vs,
        };
        Stmt { sql: sql.to_owned(), args, named_args: Vec::new(), want_rows }
    }
}

/// `s` is exactly the statement that runs `sql` with the given
/// parameters: the text, the arguments in order, and the row request
/// all pinned.
pub open spec fn stmt_planned(s: Stmt, sql: Seq<char>, params: Params, want_rows: bool) -> bool {
    &&& s.sql@ == sql
    &&& s.want_rows == want_rows
    &&& match params {
        Params::Empty => s.args@ == Seq::<Value>::empty(),
        Params::Positional(vs) => s.args == vs,
    }
    &&& s.named_args@ == Seq::<NamedArg>::empty()
}

/// A request to execute one statement on the stream.
#[derive(Debug)]
pub struct StreamExecuteReq {
    pub stmt: Stmt,
}

/// An ordered batch of statements executed as one stream operation.
#[derive(Debug)]
pub struct Batch {
    pub steps: Vec<Stmt>,
}

/// A request to run a batch on the stream.
#[derive(Debug)]
pub struct StreamBatchReq {
    pub batch: Batch,
}

/// One operation of the request envelope.
#[derive(Debug)]
pub enum StreamRequest {
    /// Close the stream.
    Close,
    /// Execute one statement.
    Execute(StreamExecuteReq),
    /// Run a batch.
    Batch(StreamBatchReq),
}

/// The request envelope: the continuation token of the stream, if any,
/// and the ordered operations.
#[derive(Debug)]
pub struct ClientMsg {
    pub baton: Option<String>,
    pub requests: Vec<StreamRequest>,
}

/// The result of one executed statement.
#[derive(Debug)]
pub struct StmtResult {
    pub cols: Vec<String>,
    pub rows: Vec<Vec<Value>>,
    pub affected_row_count: u64,
    pub last_insert_rowid: Option<i64>,
}

/// The result of one batch: per-step outcomes in submitted order.
#[derive(Debug)]
pub struct BatchResult {
    pub step_results: Vec<Option<StmtResult>>,
    pub step_errors: Vec<Option<StreamResponseError>>,
}

/// The payload of a successful per-operation result.
#[derive(Debug)]
pub enum StreamResponse {
    /// The stream was closed.
    Close,
    /// One statement's result.
    Execute(StmtResult),
    /// One batch's result.
    Batch(BatchResult),
}

/// A successful per-operation result.
#[derive(Debug)]
pub struct StreamResponseOk {
    pub response: StreamResponse,
}

/// One per-operation result of the response envelope.
#[derive(Debug)]
pub enum Response {
    /// The operation succeeded.
    Success(StreamResponseOk),
    /// The server rejected the operation on the stream.
    Failure(StreamResponseError),
}

/// The response envelope: the new continuation token, an optional
/// base-URL override, and the per-operation results in request order.
#[derive(Debug)]
pub struct ServerMsg {
    pub baton: Option<String>,
    pub base_url: Option<String>,
    pub results: Vec<Response>,
}

/// Session state of one logical transaction: the continuation token the
/// server returned last, and the URL it directed the stream to, if any.
#[derive(Debug)]
pub struct Cookie {
    pub baton: Option<String>,
    pub base_url: Option<String>,
}

/// The transport handle the crate's edge drives; sending a request and
/// receiving the response happens outside this crate.
#[derive(Debug)]
pub struct InnerClient {}

impl InnerClient {
    /// A transport handle.
    pub fn new() -> InnerClient {
        InnerClient {  }
    }
}

/// Mathematical state of a client: the cookies per transaction id, the
/// ids whose stream the server has closed, and the configured endpoint
/// and authorization header.
pub ghost struct ClientModel {
    pub cookies: Map<u64, Cookie>,
    pub closed: Set<u64>,
    pub url: Seq<char>,
    pub auth: Seq<char>,
}

/// The scheme separator that marks an absolute URL.
pub open spec fn scheme_marker() -> Seq<char> {
    seq![':', '/', '/']
}

/// The scheme prepended to a URL given without one.
pub open spec fn https_prefix() -> Seq<char> {
    seq!['h', 't', 't', 'p', 's', ':', '/', '/']
}

/// The fixed path suffix of the pipeline endpoint.
pub open spec fn pipeline_suffix() -> Seq<char> {
    seq!['v', '2', '/', 'p', 'i', 'p', 'e', 'l', 'i', 'n', 'e']
}

/// The prefix of a bearer-token authorization header.
pub open spec fn bearer_prefix() -> Seq<char> {
    seq!['B', 'e', 'a', 'r', 'e', 'r', ' ']
}

/// Whether the URL already names a scheme.
pub open spec fn has_scheme(s: Seq<char>) -> bool {
    exists|i: int| 0 <= i && i + 3 <= s.len() && #[trigger] s.subrange(i, i + 3) == scheme_marker()
}

/// A URL with no scheme is taken to be https.
pub open spec fn spec_base_url(u: Seq<char>) -> Seq<char> {
    if has_scheme(u) {
        u
    } else {
        https_prefix() + u
    }
}

/// The endpoint queries are sent to: the base URL plus the fixed
/// pipeline path.
pub open spec fn spec_url_for_queries(u: Seq<char>) -> Seq<char> {
    spec_base_url(u) + pipeline_suffix()
}

/// The authorization header derived from a token.
pub open spec fn spec_auth_header(t: Seq<char>) -> Seq<char> {
    bearer_prefix() + t
}

/// The baton the next request of transaction `tx` must carry: the one
/// from its cookie, or none for a fresh stream or autocommit.
pub open spec fn spec_baton_for(m: ClientModel, tx: u64) -> Option<Seq<char>> {
    if tx > 0 && m.cookies.contains_key(tx) {
        m.cookies[tx].baton.deep_view()
    } else {
        None
    }
}

/// The URL the next request of transaction `tx` goes to: the stream's
/// override if the server directed one, else the configured endpoint.
pub open spec fn spec_request_url(m: ClientModel, tx: u64) -> Seq<char> {
    if tx > 0 && m.cookies.contains_key(tx) && m.cookies[tx].base_url is Some {
        m.cookies[tx].base_url->0@
    } else {
        m.url
    }
}

/// State after a response for `tx` returned baton `b` and base-URL
/// override `base`: the cookie is replaced.
pub open spec fn spec_record_baton(m: ClientModel, tx: u64, b: String, base: Option<
    String,
>) -> ClientModel {
    ClientModel {
        cookies: m.cookies.insert(tx, Cookie { baton: Some(b), base_url: base }),
        closed: m.closed,
        url: m.url,
        auth: m.auth,
    }
}

/// State after a response for an active `tx` returned no baton: the
/// stream is closed, its cookie destroyed, and `tx` marked closed.
pub open spec fn spec_mark_closed(m: ClientModel, tx: u64) -> ClientModel {
    ClientModel {
        cookies: m.cookies.remove(tx),
        closed: m.closed.insert(tx),
        url: m.url,
        auth: m.auth,
    }
}

/// State after a stream is explicitly closed: the cookie is destroyed
/// and the id may be used afresh.
pub open spec fn spec_forget_stream(m: ClientModel, tx: u64) -> ClientModel {
    ClientModel {
        cookies: m.cookies.remove(tx),
        closed: m.closed.remove(tx),
        url: m.url,
        auth: m.auth,
    }
}

/// How the per-operation results of a single-statement request map to
/// the call's outcome: exactly one result is owed; it must be an
/// execute result; a server-reported failure surfaces as a stream
/// error.
pub open spec fn single_execute_outcome(results: Seq<Response>, r: Result<
    StmtResult,
    Error,
>) -> bool {
    if results.len() != 1 {
        r matches Err(Error::Hrana(HranaError::UnexpectedResponse(_)))
    } else {
        match results[0] {
            Response::Success(ok) => match ok.response {
                StreamResponse::Execute(res) => r == Ok::<StmtResult, Error>(res),
                _ => r matches Err(Error::Hrana(HranaError::UnexpectedResponse(_))),
            },
            Response::Failure(e) => r == Err::<StmtResult, Error>(
                Error::Hrana(HranaError::StreamError(e)),
            ),
        }
    }
}

/// How the per-operation results of a raw batch request map to the
/// call's outcome: one batch result plus at most the implicit close is
/// owed; zero results, or more than two, are protocol errors.
pub open spec fn batch_outcome_spec(results: Seq<Response>, r: Result<BatchResult, Error>) -> bool {
    if results.len() == 0 || results.len() > 2 {
        r matches Err(Error::Hrana(HranaError::UnexpectedResponse(_)))
    } else {
        match results[0] {
            Response::Success(ok) => match ok.response {
                StreamResponse::Batch(br) => r == Ok::<BatchResult, Error>(br),
                _ => r matches Err(Error::Hrana(HranaError::UnexpectedResponse(_))),
            },
            Response::Failure(e) => r == Err::<BatchResult, Error>(
                Error::Hrana(HranaError::StreamError(e)),
            ),
        }
    }
}

/// Copies an optional string.
fn clone_opt_string(s: &Option<String>) -> (r: Option<String>)
    ensures
        r.deep_view() == s.deep_view(),
{
    match s {
        Some(x) => Some(x.clone()),
        None => None,
    }
}

/// Whether the URL contains the scheme separator `://`.
fn contains_scheme(s: &str) -> (r: bool)
    ensures
        r == has_scheme(s@),
{
    let n = s.unicode_len();
    if n < 3 {
        return false;
    }
    let mut i: usize = 0;
    while i <= n - 3
        invariant
            3 <= n,
            n == s@.len(),
            i <= n,
            forall|j: int| 0 <= j < i ==> #[trigger] s@.subrange(j, j + 3) != scheme_marker(),
        decreases n - i,
    {
        let c0 = s.get_char(i);
        let c1 = s.get_char(i + 1);
        let c2 = s.get_char(i + 2);
        if c0 == ':' && c1 == '/' && c2 == '/' {
            proof {
                assert(s@.subrange(i as int, i as int + 3) =~= scheme_marker());
            }
            return true;
        }
        proof {
            let j = i as int;
            if s@.subrange(j, j + 3) == scheme_marker() {
                assert(s@.subrange(j, j + 3)[0] == s@[j]);
                assert(s@.subrange(j, j + 3)[1] == s@[j + 1]);
                assert(s@.subrange(j, j + 3)[2] == s@[j + 2]);
                assert(false);
            }
        }
        i = i + 1;
    }
    proof {
        assert forall|j: int| 0 <= j && j + 3 <= s@.len() implies #[trigger] s@.subrange(j, j + 3)
            != scheme_marker() by {
            assert(j < i);
        }
    }
    false
}

/// A client of the remote wire protocol. It owns the session cookies of
/// its transactions; nothing outside the client mutates them.
#[derive(Debug)]
pub struct Client {
    inner: InnerClient,
    cookies: HashMap<u64, Cookie>,
    closed: HashSet<u64>,
    url_for_queries: String,
    auth: String,
}

impl View for Client {
    type V = ClientModel;

    closed spec fn view(&self) -> ClientModel {
        ClientModel {
            cookies: self.cookies@,
            closed: self.closed@,
            url: self.url_for_queries@,
            auth: self.auth@,
        }
    }
}

impl Client {
    /// A client against a database endpoint with bearer-token
    /// authentication. A URL given without a scheme is taken to be
    /// https; the query endpoint is the base URL plus the fixed
    /// pipeline path.
    pub fn new(inner: InnerClient, url: &str, token: &str) -> (r: Client)
        ensures
            r@.cookies == Map::<u64, Cookie>::empty(),
            r@.closed == Set::<u64>::empty(),
            r@.url == spec_url_for_queries(url@),
            r@.auth == spec_auth_header(token@),
    {
        let base_url = if !contains_scheme(url) {
            proof {
                reveal_strlit("https://");
                assert("https://"@ =~= https_prefix());
            }
            String::from_str("https://").concat(url)
        } else {
            url.to_owned()
        };
        proof {
            reveal_strlit("v2/pipeline");
            assert("v2/pipeline"@ =~= pipeline_suffix());
            reveal_strlit("Bearer ");
            assert("Bearer "@ =~= bearer_prefix());
        }
        let url_for_queries = base_url.concat("v2/pipeline");
        let auth = String::from_str("Bearer ").concat(token);
        Client {
            inner,
            cookies: HashMap::new(),
            closed: HashSet::new(),
            url_for_queries,
            auth,
        }
    }

    /// A client configured from environment-derived values: the URL is
    /// required, a missing token means an unauthenticated (empty)
    /// token. The crate's edge reads the actual variables and hands
    /// their values here.
    pub fn from_env_values(inner: InnerClient, url: Option<String>, token: Option<String>) -> (r:
        Result<Client, Error>)
        ensures
            url is None ==> r matches Err(Error::Hrana(HranaError::MissingEnv(_))),
            url matches Some(u) ==> r matches Ok(c) && c@.cookies == Map::<u64, Cookie>::empty()
                && c@.closed == Set::<u64>::empty() && c@.url == spec_url_for_queries(u@) && c@.auth
                == spec_auth_header(
                match token {
                    Some(t) => t@,
                    None => Seq::<char>::empty(),
                },
            ),
    {
        let u = match url {
            Some(u) => u,
            None => {
                return Err(
                    Error::Hrana(
                        HranaError::MissingEnv(
                            String::from_str(
                                "LIBSQL_CLIENT_URL variable should point to your sqld database",
                            ),
                        ),
                    ),
                );
            },
        };
        let t = match token {
            Some(t) => t,
            None => String::new(),
        };
        Ok(Client::new(InnerClient {  }, u.as_str(), t.as_str()))
    }

    /// The authorization header every request carries.
    pub fn auth_header(&self) -> (r: &str)
        ensures
            r@ == self@.auth,
    {
        self.auth.as_str()
    }

    /// Builds the request envelope and target URL for executing `stmt`
    /// in transaction `tx_id`. Fails — with a stream-closed error and
    /// without building a request — exactly when the server has closed
    /// that transaction's stream.
    pub fn execute_msg(&self, tx_id: u64, stmt: Stmt) -> (r: Result<(String, ClientMsg), Error>)
        ensures
            r is Err <==> tx_id > 0 && self@.closed.contains(tx_id),
            r is Err ==> r->Err_0 matches Error::Hrana(HranaError::StreamClosed(_)),
            r matches Ok(p) ==> {
                &&& p.0@ == spec_request_url(self@, tx_id)
                &&& p.1.baton.deep_view() == spec_baton_for(self@, tx_id)
                &&& p.1.requests@.len() == 1
                &&& p.1.requests@[0] matches StreamRequest::Execute(e) && e.stmt == stmt
            },
    {
        if tx_id > 0 && self.closed.contains(&tx_id) {
            return Err(
                Error::Hrana(
                    HranaError::StreamClosed(
                        String::from_str("stream closed: the server ended this transaction"),
                    ),
                ),
            );
        }
        let (baton, url) = self.stream_target(tx_id);
        let mut requests: Vec<StreamRequest> = Vec::new();
        requests.push(StreamRequest::Execute(StreamExecuteReq { stmt }));
        Ok((url, ClientMsg { baton, requests }))
    }

    /// The baton and URL the next request of `tx_id` must use.
    fn stream_target(&self, tx_id: u64) -> (r: (Option<String>, String))
        ensures
            r.0.deep_view() == spec_baton_for(self@, tx_id),
            r.1@ == spec_request_url(self@, tx_id),
    {
        if tx_id > 0 {
            match self.cookies.get(&tx_id) {
                Some(c) => {
                    let baton = clone_opt_string(&c.baton);
                    let url = match &c.base_url {
                        Some(u) => u.clone(),
                        None => self.url_for_queries.clone(),
                    };
                    (baton, url)
                },
                None => (None, self.url_for_queries.clone()),
            }
        } else {
            (None, self.url_for_queries.clone())
        }
    }

    /// Consumes the response to an `execute` request for `tx_id`:
    /// records the new cookie; for an active transaction whose response
    /// carries no baton, marks the stream closed and fails with a
    /// stream-closed error; then holds the response to its shape —
    /// exactly one result, which must be an execute result.
    pub fn apply_execute_response(&mut self, tx_id: u64, response: ServerMsg) -> (r: Result<
        StmtResult,
        Error,
    >)
        ensures
            tx_id == 0 ==> final(self)@ == old(self)@,
            tx_id > 0 ==> match response.baton {
                Some(b) => final(self)@ == spec_record_baton(
                    old(self)@,
                    tx_id,
                    b,
                    response.base_url,
                ),
                None => final(self)@ == spec_mark_closed(old(self)@, tx_id) && r matches Err(
                    Error::Hrana(HranaError::StreamClosed(_)),
                ),
            },
            (tx_id == 0 || response.baton is Some) ==> single_execute_outcome(response.results@, r),
    {
        let ServerMsg { baton, base_url, results } = response;
        let mut results = results;
        if tx_id > 0 {
            match baton {
                Some(b) => {
                    self.cookies.insert(tx_id, Cookie { baton: Some(b), base_url });
                },
                None => {
                    self.cookies.remove(&tx_id);
                    self.closed.insert(tx_id);
                    return Err(
                        Error::Hrana(
                            HranaError::StreamClosed(
                                String::from_str("stream closed: server returned no baton"),
                            ),
                        ),
                    );
                },
            }
        }
        if results.len() == 0 {
            return Err(
                Error::Hrana(
                    HranaError::UnexpectedResponse(
                        String::from_str("unexpected empty response from server"),
                    ),
                ),
            );
        }
        if results.len() > 1 {
            return Err(
                Error::Hrana(
                    HranaError::UnexpectedResponse(
                        String::from_str("unexpected multiple responses from server"),
                    ),
                ),
            );
        }
        match results.remove(0) {
            Response::Success(ok) => match ok.response {
                StreamResponse::Execute(res) => Ok(res),
                _ => Err(
                    Error::Hrana(
                        HranaError::UnexpectedResponse(
                            String::from_str("unexpected response from server"),
                        ),
                    ),
                ),
            },
            Response::Failure(e) => Err(Error::Hrana(HranaError::StreamError(e))),
        }
    }

    /// Builds the request envelope for a raw batch: the statements as
    /// one batch operation followed by an explicit close, on a fresh
    /// stream (no baton), against the configured endpoint.
    pub fn batch_msg(&self, stmts: Vec<Stmt>) -> (r: (String, ClientMsg))
        ensures
            r.0@ == self@.url,
            r.1.baton is None,
            r.1.requests@.len() == 2,
            r.1.requests@[0] matches StreamRequest::Batch(b) && b.batch.steps == stmts,
            r.1.requests@[1] is Close,
    {
        let mut requests: Vec<StreamRequest> = Vec::new();
        requests.push(StreamRequest::Batch(StreamBatchReq { batch: Batch { steps: stmts } }));
        requests.push(StreamRequest::Close);
        (self.url_for_queries.clone(), ClientMsg { baton: None, requests })
    }

    /// Consumes the response to a raw batch request: one batch result
    /// plus at most the implicit close is owed; zero results or more
    /// than two are protocol errors; a server-reported failure surfaces
    /// as a stream error. Batch responses carry no session state, so
    /// the client is untouched.
    pub fn batch_outcome(response: ServerMsg) -> (r: Result<BatchResult, Error>)
        ensures
            batch_outcome_spec(response.results@, r),
    {
        let ServerMsg { baton: _, base_url: _, results } = response;
        let mut results = results;
        if results.len() == 0 {
            return Err(
                Error::Hrana(
                    HranaError::UnexpectedResponse(
                        String::from_str("unexpected empty response from server"),
                    ),
                ),
            );
        }
        if results.len() > 2 {
            return Err(
                Error::Hrana(
                    HranaError::UnexpectedResponse(
                        String::from_str("unexpected multiple responses from server"),
                    ),
                ),
            );
        }
        match results.remove(0) {
            Response::Success(ok) => match ok.response {
                StreamResponse::Batch(br) => Ok(br),
                _ => Err(
                    Error::Hrana(
                        HranaError::UnexpectedResponse(
                            String::from_str("unexpected response from server"),
                        ),
                    ),
                ),
            },
            Response::Failure(e) => Err(Error::Hrana(HranaError::StreamError(e))),
        }
    }

    /// Builds the best-effort close request for a stream: a lone close
    /// operation carrying the stream's baton, to the stream's URL.
    pub fn close_msg(&self, tx_id: u64) -> (r: (String, ClientMsg))
        ensures
            r.0@ == spec_request_url(self@, tx_id),
            r.1.baton.deep_view() == spec_baton_for(self@, tx_id),
            r.1.requests@.len() == 1,
            r.1.requests@[0] is Close,
    {
        let (baton, url) = self.stream_target(tx_id);
        let mut requests: Vec<StreamRequest> = Vec::new();
        requests.push(StreamRequest::Close);
        (url, ClientMsg { baton, requests })
    }

    /// Removes a stream's session state once its close request was
    /// attempted. The cookie is destroyed whether or not the close was
    /// delivered, and the id may be used for a new transaction.
    pub fn finish_close(&mut self, tx_id: u64)
        ensures
            final(self)@ == spec_forget_stream(old(self)@, tx_id),
    {
        self.cookies.remove(&tx_id);
        self.closed.remove(&tx_id);
    }
}

/// Session continuity: after a response for transaction `t` returns
/// baton `b`, the next request built for `t` carries exactly `b`; and
/// after a response for `t` returns no baton, `t` is marked closed, so
/// the next attempt to use `t` fails with a stream-closed error (the
/// error condition of [`Client::execute_msg`]).
pub proof fn lemma_session_continuity(m: ClientModel, t: u64, b: String, base: Option<String>)
    requires
        t > 0,
    ensures
        spec_baton_for(spec_record_baton(m, t, b, base), t) == Some(b@),
        spec_request_url(spec_record_baton(m, t, b, base), t) == (match base {
            Some(u) => u@,
            None => m.url,
        }),
        spec_mark_closed(m, t).closed.contains(t),
{
}

} // verus!
