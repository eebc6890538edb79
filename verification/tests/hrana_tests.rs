use libsql::errors::{Error, HranaError, StreamResponseError};
use libsql::hrana::{
    BatchResult, Client, InnerClient, Response, ServerMsg, Stmt, StmtResult, StreamRequest,
    StreamResponse, StreamResponseOk,
};
use libsql::params::{Params, Value};

fn stmt(sql: &str) -> Stmt {
    Stmt::new(sql, true)
}

fn stmt_result() -> StmtResult {
    StmtResult {
        cols: vec![],
        rows: vec![],
        affected_row_count: 1,
        last_insert_rowid: None,
    }
}

fn execute_ok_msg(baton: Option<&str>, base_url: Option<&str>) -> ServerMsg {
    ServerMsg {
        baton: baton.map(|b| b.to_string()),
        base_url: base_url.map(|u| u.to_string()),
        results: vec![Response::Success(StreamResponseOk {
            response: StreamResponse::Execute(stmt_result()),
        })],
    }
}

fn client() -> Client {
    Client::new(InnerClient::new(), "https://example.com/", "tok")
}

#[test]
fn statements_bind_parameters_in_order() {
    let mut s = Stmt::new("INSERT INTO t VALUES (?, ?)", false);
    assert!(s.args.is_empty());
    assert!(s.named_args.is_empty());
    s.bind(Value::Integer(1));
    s.bind(Value::Text("x".to_string()));
    assert_eq!(s.args.len(), 2);
    assert!(matches!(s.args[0], Value::Integer(1)));
    s.bind_named("n".to_string(), Value::Integer(5));
    assert_eq!(s.named_args.len(), 1);
    assert_eq!(s.named_args[0].name, "n");
    assert!(matches!(s.named_args[0].value, Value::Integer(5)));
    assert_eq!(s.args.len(), 2);

    let p = Stmt::with_params(
        "SELECT ?",
        Params::Positional(vec![Value::Integer(9)]),
        true,
    );
    assert_eq!(p.args.len(), 1);
    assert!(p.want_rows);
    let none = Stmt::with_params("SELECT 1", Params::Empty, true);
    assert!(none.args.is_empty());
}

#[test]
fn new_prefixes_scheme_when_missing() {
    let c = Client::new(InnerClient::new(), "example.com/", "tok");
    let (url, msg) = c.execute_msg(0, stmt("SELECT 1")).unwrap();
    assert_eq!(url, "https://example.com/v2/pipeline");
    assert!(msg.baton.is_none());
    assert_eq!(msg.requests.len(), 1);
    assert!(matches!(
        &msg.requests[0],
        StreamRequest::Execute(e) if e.stmt.sql == "SELECT 1"
    ));
}

#[test]
fn new_keeps_scheme_when_present() {
    let c = Client::new(InnerClient::new(), "http://h:8080/", "tok");
    let (url, _) = c.execute_msg(0, stmt("SELECT 1")).unwrap();
    assert_eq!(url, "http://h:8080/v2/pipeline");
}

#[test]
fn auth_header_is_bearer_token() {
    assert_eq!(client().auth_header(), "Bearer tok");
}

#[test]
fn from_env_values_requires_url() {
    let e = Client::from_env_values(InnerClient::new(), None, None).unwrap_err();
    assert!(matches!(e, Error::Hrana(HranaError::MissingEnv(_))));
}

#[test]
fn from_env_values_defaults_token_to_empty() {
    let c = Client::from_env_values(
        InnerClient::new(),
        Some("https://example.com/".to_string()),
        None,
    )
    .unwrap();
    assert_eq!(c.auth_header(), "Bearer ");
}

#[test]
fn second_request_carries_baton_of_first_response() {
    let mut c = client();
    let (_, msg1) = c.execute_msg(7, stmt("BEGIN")).unwrap();
    assert!(msg1.baton.is_none());

    c.apply_execute_response(7, execute_ok_msg(Some("b1"), None))
        .unwrap();
    let (_, msg2) = c.execute_msg(7, stmt("INSERT INTO t VALUES (1)")).unwrap();
    assert_eq!(msg2.baton.as_deref(), Some("b1"));

    c.apply_execute_response(7, execute_ok_msg(Some("b2"), None))
        .unwrap();
    let (_, msg3) = c.execute_msg(7, stmt("COMMIT")).unwrap();
    assert_eq!(msg3.baton.as_deref(), Some("b2"));
}

#[test]
fn missing_baton_closes_the_stream() {
    let mut c = client();
    let e = c
        .apply_execute_response(3, execute_ok_msg(None, None))
        .unwrap_err();
    assert!(matches!(e, Error::Hrana(HranaError::StreamClosed(_))));
    // The next attempt to use the transaction fails the same way...
    let e2 = c.execute_msg(3, stmt("COMMIT")).unwrap_err();
    assert!(matches!(e2, Error::Hrana(HranaError::StreamClosed(_))));
    // ...while other transactions are untouched.
    assert!(c.execute_msg(4, stmt("SELECT 1")).is_ok());
    assert!(c.execute_msg(0, stmt("SELECT 1")).is_ok());
}

#[test]
fn autocommit_requests_keep_no_session_state() {
    let mut c = client();
    // A baton on an autocommit response is not recorded...
    c.apply_execute_response(0, execute_ok_msg(Some("b1"), None))
        .unwrap();
    let (_, msg) = c.execute_msg(0, stmt("SELECT 1")).unwrap();
    assert!(msg.baton.is_none());
    // ...and a missing baton is not a closed stream.
    assert!(c
        .apply_execute_response(0, execute_ok_msg(None, None))
        .is_ok());
}

#[test]
fn base_url_override_redirects_the_stream() {
    let mut c = client();
    c.apply_execute_response(2, execute_ok_msg(Some("b1"), Some("http://other/")))
        .unwrap();
    let (url, _) = c.execute_msg(2, stmt("SELECT 1")).unwrap();
    assert_eq!(url, "http://other/");
    // Another transaction still uses the configured endpoint.
    let (url0, _) = c.execute_msg(0, stmt("SELECT 1")).unwrap();
    assert_eq!(url0, "https://example.com/v2/pipeline");
}

#[test]
fn execute_response_shape_is_validated() {
    let mut c = client();
    let empty = ServerMsg {
        baton: None,
        base_url: None,
        results: vec![],
    };
    let e = c.apply_execute_response(0, empty).unwrap_err();
    assert!(matches!(e, Error::Hrana(HranaError::UnexpectedResponse(_))));

    let two = ServerMsg {
        baton: None,
        base_url: None,
        results: vec![
            Response::Success(StreamResponseOk {
                response: StreamResponse::Execute(stmt_result()),
            }),
            Response::Success(StreamResponseOk {
                response: StreamResponse::Close,
            }),
        ],
    };
    let e = c.apply_execute_response(0, two).unwrap_err();
    assert!(matches!(e, Error::Hrana(HranaError::UnexpectedResponse(_))));

    let wrong_kind = ServerMsg {
        baton: None,
        base_url: None,
        results: vec![Response::Success(StreamResponseOk {
            response: StreamResponse::Close,
        })],
    };
    let e = c.apply_execute_response(0, wrong_kind).unwrap_err();
    assert!(matches!(e, Error::Hrana(HranaError::UnexpectedResponse(_))));
}

#[test]
fn server_rejection_surfaces_as_stream_error() {
    let mut c = client();
    let rejected = ServerMsg {
        baton: None,
        base_url: None,
        results: vec![Response::Failure(StreamResponseError {
            message: "no such table".to_string(),
        })],
    };
    let e = c.apply_execute_response(0, rejected).unwrap_err();
    assert!(matches!(
        e,
        Error::Hrana(HranaError::StreamError(se)) if se.message == "no such table"
    ));
}

#[test]
fn batch_msg_is_batch_then_close_on_fresh_stream() {
    let c = client();
    let (url, msg) = c.batch_msg(vec![stmt("A"), stmt("B"), stmt("C")]);
    assert_eq!(url, "https://example.com/v2/pipeline");
    assert!(msg.baton.is_none());
    assert_eq!(msg.requests.len(), 2);
    assert!(matches!(
        &msg.requests[0],
        StreamRequest::Batch(b) if b.batch.steps.len() == 3 && b.batch.steps[0].sql == "A"
    ));
    assert!(matches!(&msg.requests[1], StreamRequest::Close));
}

#[test]
fn batch_response_shape_is_validated() {
    let empty = ServerMsg {
        baton: None,
        base_url: None,
        results: vec![],
    };
    let e = Client::batch_outcome(empty).unwrap_err();
    assert!(matches!(e, Error::Hrana(HranaError::UnexpectedResponse(_))));

    let close = || {
        Response::Success(StreamResponseOk {
            response: StreamResponse::Close,
        })
    };
    let three = ServerMsg {
        baton: None,
        base_url: None,
        results: vec![close(), close(), close()],
    };
    let e = Client::batch_outcome(three).unwrap_err();
    assert!(matches!(e, Error::Hrana(HranaError::UnexpectedResponse(_))));
}

#[test]
fn batch_of_three_returns_outcomes_in_order() {
    let batch_result = BatchResult {
        step_results: vec![Some(stmt_result()), Some(stmt_result()), Some(stmt_result())],
        step_errors: vec![None, None, None],
    };
    let msg = ServerMsg {
        baton: None,
        base_url: None,
        results: vec![
            Response::Success(StreamResponseOk {
                response: StreamResponse::Batch(batch_result),
            }),
            Response::Success(StreamResponseOk {
                response: StreamResponse::Close,
            }),
        ],
    };
    let out = Client::batch_outcome(msg).unwrap();
    assert_eq!(out.step_results.len(), 3);
    assert!(out.step_results.iter().all(|r| r.is_some()));
    assert!(out.step_errors.iter().all(|e| e.is_none()));
}

#[test]
fn close_carries_baton_and_destroys_the_cookie() {
    let mut c = client();
    c.apply_execute_response(9, execute_ok_msg(Some("b9"), Some("http://other/")))
        .unwrap();
    let (url, msg) = c.close_msg(9);
    assert_eq!(url, "http://other/");
    assert_eq!(msg.baton.as_deref(), Some("b9"));
    assert_eq!(msg.requests.len(), 1);
    assert!(matches!(&msg.requests[0], StreamRequest::Close));

    c.finish_close(9);
    let (url2, msg2) = c.execute_msg(9, stmt("SELECT 1")).unwrap();
    assert!(msg2.baton.is_none());
    assert_eq!(url2, "https://example.com/v2/pipeline");
}

#[test]
fn finish_close_reopens_a_closed_id() {
    let mut c = client();
    c.apply_execute_response(3, execute_ok_msg(None, None))
        .unwrap_err();
    assert!(c.execute_msg(3, stmt("SELECT 1")).is_err());
    c.finish_close(3);
    assert!(c.execute_msg(3, stmt("SELECT 1")).is_ok());
}
