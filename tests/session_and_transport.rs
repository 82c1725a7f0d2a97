use fairos::{
    classify_response, domain_error, login_error, make_uri, plan_delete, plan_get,
    plan_multipart, plan_post, session_from_set_cookie, signup_error, Domain, FairOSError,
    FairOSFileSystemError, FairOSKeyValueError, FairOSUserError, MessageResponse, Method,
    ReplyKind, RequestError, SessionStore,
};

fn pairs(p: &[(&str, &str)]) -> Vec<(String, String)> {
    p.iter().map(|(a, b)| (a.to_string(), b.to_string())).collect()
}

#[test]
fn session_set_then_get() {
    let mut s = SessionStore::new();
    assert_eq!(s.cookie("alice"), None);
    s.set_cookie("alice", "t1".to_string());
    assert_eq!(s.cookie("alice"), Some("t1"));
    assert_eq!(s.cookie("bob"), None);
}

#[test]
fn session_set_twice_overwrites() {
    let mut s = SessionStore::new();
    s.set_cookie("alice", "t1".to_string());
    s.set_cookie("bob", "b".to_string());
    s.set_cookie("alice", "t2".to_string());
    assert_eq!(s.cookie("alice"), Some("t2"));
    assert_eq!(s.cookie("bob"), Some("b"));
    s.remove_cookie("alice");
    assert_eq!(s.cookie("alice"), None);
    assert_eq!(s.cookie("bob"), Some("b"));
}

#[test]
fn session_remove_absent_is_noop() {
    let mut s = SessionStore::new();
    s.remove_cookie("nobody");
    assert_eq!(s.cookie("nobody"), None);
    s.set_cookie("x", String::new());
    assert_eq!(s.cookie("x"), Some(""));
}

#[test]
fn uri_without_query() {
    let q = Vec::new();
    assert_eq!(make_uri("http://localhost:9090/v1", "/pod/ls", &q), "http://localhost:9090/v1/pod/ls");
}

#[test]
fn uri_query_kept_in_order_and_unencoded() {
    let q = pairs(&[("pod_name", "p"), ("table_name", "t"), ("expr", "n%3e9")]);
    assert_eq!(
        make_uri("http://h/v1", "/doc/find", &q),
        "http://h/v1/doc/find?pod_name=p&table_name=t&expr=n%3e9"
    );
}

#[test]
fn set_cookie_header_parsing() {
    assert_eq!(
        session_from_set_cookie("fairOS-dfs=abc123; Path=/; HttpOnly"),
        Some("abc123".to_string())
    );
    assert_eq!(session_from_set_cookie("fairOS-dfs=abc"), Some("abc".to_string()));
    assert_eq!(session_from_set_cookie("fairOS-dfs=a=b; x"), Some("a=b".to_string()));
    assert_eq!(session_from_set_cookie("fairOS-dfs=dG9rZW4=; Path=/"), Some("dG9rZW4=".to_string()));
    assert_eq!(session_from_set_cookie("fairOS-dfs="), Some(String::new()));
    assert_eq!(session_from_set_cookie("other=abc; Path=/"), None);
    assert_eq!(session_from_set_cookie("fairOS-dfs; Path=/"), None);
    assert_eq!(session_from_set_cookie(""), None);
}

#[test]
fn classify_success_post_refreshes_session() {
    let r = classify_response(Method::Post, 200, Some("fairOS-dfs=tok; Path=/"), b"{}".to_vec(), None)
        .unwrap();
    assert_eq!(r.body, b"{}".to_vec());
    assert_eq!(r.session, Some("tok".to_string()));
    let r = classify_response(Method::Post, 299, None, Vec::new(), None).unwrap();
    assert_eq!(r.session, None);
}

#[test]
fn classify_success_get_and_delete_never_refresh() {
    let r = classify_response(Method::Get, 201, Some("fairOS-dfs=tok"), b"x".to_vec(), None).unwrap();
    assert_eq!(r.session, None);
    assert_eq!(r.body, b"x".to_vec());
    let r = classify_response(Method::Delete, 200, Some("fairOS-dfs=tok"), Vec::new(), None).unwrap();
    assert_eq!(r.session, None);
}

#[test]
fn classify_rejection_carries_envelope() {
    let env = MessageResponse { message: "pod not found".to_string(), code: 404 };
    match classify_response(Method::Get, 404, None, b"...".to_vec(), Some(env)) {
        Err(RequestError::Rejected { message, code }) => {
            assert_eq!(message, "pod not found");
            assert_eq!(code, 404);
        }
        other => panic!("unexpected {:?}", other),
    }
    let env = MessageResponse { message: "m".to_string(), code: 7 };
    assert!(matches!(
        classify_response(Method::Post, 300, Some("fairOS-dfs=t"), Vec::new(), Some(env)),
        Err(RequestError::Rejected { .. })
    ));
    let env = MessageResponse { message: "m".to_string(), code: 7 };
    assert!(matches!(
        classify_response(Method::Post, 199, None, Vec::new(), Some(env)),
        Err(RequestError::Rejected { .. })
    ));
}

#[test]
fn classify_rejection_without_envelope_is_decode_failure() {
    assert!(matches!(
        classify_response(Method::Get, 500, None, b"oops".to_vec(), None),
        Err(RequestError::DecodeFailed)
    ));
}

#[test]
fn plans_carry_method_headers_and_body() {
    let q = pairs(&[("user_name", "u")]);
    let g = plan_get("http://h", "/user/present", &q, None);
    assert_eq!(g.method, Method::Get);
    assert_eq!(g.uri, "http://h/user/present?user_name=u");
    assert!(g.headers.is_empty());
    assert!(g.body.is_empty());
    assert_eq!(g.reply, ReplyKind::Json);

    let g = plan_get("http://h", "/pod/ls", &Vec::new(), Some("tok"));
    assert_eq!(g.headers, pairs(&[("Cookie", "fairOS-dfs=tok")]));

    let p = plan_post("http://h", "/user/login", b"{\"a\":1}".to_vec(), None);
    assert_eq!(p.method, Method::Post);
    assert_eq!(p.uri, "http://h/user/login");
    assert_eq!(p.headers, pairs(&[("Content-Type", "application/json")]));
    assert_eq!(p.body, b"{\"a\":1}".to_vec());

    let d = plan_delete("http://h", "/pod/delete", Vec::new(), "tok");
    assert_eq!(d.method, Method::Delete);
    assert_eq!(
        d.headers,
        pairs(&[("Content-Type", "application/json"), ("Cookie", "fairOS-dfs=tok")])
    );

    let m = plan_multipart(
        "http://h",
        "/file/download",
        "XyZ",
        b"body".to_vec(),
        "tok",
        pairs(&[("fairOS-dfs-Compression", "gzip")]),
        ReplyKind::Binary,
    );
    assert_eq!(m.method, Method::Post);
    assert_eq!(m.reply, ReplyKind::Binary);
    assert_eq!(
        m.headers,
        pairs(&[
            ("Content-Type", "multipart/form-data; boundary=XyZ"),
            ("Cookie", "fairOS-dfs=tok"),
            ("fairOS-dfs-Compression", "gzip"),
        ])
    );
}

#[test]
fn error_mapping_keeps_unreachable_distinct() {
    assert_eq!(domain_error(Domain::Pod, &RequestError::CouldNotConnect), FairOSError::CouldNotConnect);
    let rej = RequestError::Rejected { message: "x".to_string(), code: 400 };
    assert_eq!(
        domain_error(Domain::FileSystem, &rej),
        FairOSError::FileSystem(FairOSFileSystemError::Error)
    );
    assert_eq!(
        domain_error(Domain::KeyValue, &rej),
        FairOSError::KeyValue(FairOSKeyValueError::Error)
    );
    assert_eq!(domain_error(Domain::Document, &RequestError::DecodeFailed), FairOSError::DecodeFailed);
}

#[test]
fn signup_and_login_messages() {
    let taken = RequestError::Rejected {
        message: "user signup: user name already present".to_string(),
        code: 400,
    };
    assert_eq!(signup_error(&taken), FairOSError::User(FairOSUserError::UsernameAlreadyExists));
    let other = RequestError::Rejected { message: "boom".to_string(), code: 500 };
    assert_eq!(signup_error(&other), FairOSError::User(FairOSUserError::Error));
    assert_eq!(signup_error(&RequestError::CouldNotConnect), FairOSError::CouldNotConnect);

    let bad_user = RequestError::Rejected { message: "user login: invalid user name".to_string(), code: 400 };
    assert_eq!(login_error(&bad_user), FairOSError::User(FairOSUserError::InvalidUsername));
    let bad_pass = RequestError::Rejected { message: "user login: invalid password".to_string(), code: 400 };
    assert_eq!(login_error(&bad_pass), FairOSError::User(FairOSUserError::InvalidPassword));
    assert_eq!(login_error(&other), FairOSError::User(FairOSUserError::Error));
    assert_eq!(login_error(&taken), FairOSError::User(FairOSUserError::Error));
}
