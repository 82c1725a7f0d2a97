use fairos::{
    build_multipart, encode_multipart, KeyValueSeek, Method, RequestError, SeekEntry, StreamPart,
    BOUNDARY_LEN,
};

fn pairs(p: &[(&str, &str)]) -> Vec<(String, String)> {
    p.iter().map(|(a, b)| (a.to_string(), b.to_string())).collect()
}

fn part(data: &[u8]) -> StreamPart {
    StreamPart {
        name: "files".to_string(),
        data: data.to_vec(),
        filename: Some("hello.txt".to_string()),
        content_type: Some("text/plain".to_string()),
    }
}

#[test]
fn multipart_exact_bytes() {
    let fields = pairs(&[("pod_name", "p"), ("dir_path", "/Documents")]);
    let body = encode_multipart("B0und", &fields, &vec![part(b"hello world")]);
    let expected = "\r\n--B0und\r\nContent-Disposition: form-data; name=\"pod_name\"\r\n\r\np\
\r\n--B0und\r\nContent-Disposition: form-data; name=\"dir_path\"\r\n\r\n/Documents\
\r\n--B0und\r\nContent-Disposition: form-data; name=\"files\"; filename=\"hello.txt\"\r\nContent-Type: text/plain\r\n\r\nhello world\
\r\n--B0und--";
    assert_eq!(String::from_utf8(body).unwrap(), expected);
}

#[test]
fn multipart_default_media_type_and_no_filename() {
    let s = StreamPart {
        name: "csv".to_string(),
        data: vec![0, 255],
        filename: None,
        content_type: None,
    };
    let body = encode_multipart("b", &Vec::new(), &vec![s]);
    let mut expected =
        b"\r\n--b\r\nContent-Disposition: form-data; name=\"csv\"\r\nContent-Type: application/octet-stream\r\n\r\n"
            .to_vec();
    expected.extend_from_slice(&[0, 255]);
    expected.extend_from_slice(b"\r\n--b--");
    assert_eq!(body, expected);
}

#[test]
fn multipart_is_deterministic_with_fixed_boundary() {
    let fields = pairs(&[("a", "1"), ("b", "2")]);
    let one = encode_multipart("fixed", &fields, &vec![part(b"xyz")]);
    let two = encode_multipart("fixed", &fields, &vec![part(b"xyz")]);
    assert_eq!(one, two);
    let other = encode_multipart("other", &fields, &vec![part(b"xyz")]);
    assert_ne!(one, other);
}

#[test]
fn multipart_keeps_submission_order() {
    let ab = encode_multipart("k", &pairs(&[("a", "1"), ("b", "2")]), &Vec::new());
    let ba = encode_multipart("k", &pairs(&[("b", "2"), ("a", "1")]), &Vec::new());
    assert_ne!(ab, ba);
    let text = String::from_utf8(ab).unwrap();
    assert!(text.find("name=\"a\"").unwrap() < text.find("name=\"b\"").unwrap());
}

#[test]
fn multipart_empty_has_no_closing_boundary() {
    assert!(encode_multipart("k", &Vec::new(), &Vec::new()).is_empty());
}

#[test]
fn multipart_file_and_memory_sources_match() {
    // A file's content read into memory encodes exactly as the same bytes given directly.
    let from_file = std::str::from_utf8(b"hello world").unwrap().as_bytes().to_vec();
    let a = encode_multipart("k", &Vec::new(), &vec![part(&from_file)]);
    let b = encode_multipart("k", &Vec::new(), &vec![part(b"hello world")]);
    assert_eq!(a, b);
}

#[test]
fn built_body_uses_fresh_valid_boundary() {
    let fields = pairs(&[("pod_name", "p")]);
    let (boundary, body) = build_multipart(&fields, &vec![part(b"abc")]);
    assert_eq!(boundary.len(), BOUNDARY_LEN);
    assert!(boundary.chars().all(|c| c.is_ascii_alphanumeric()));
    assert_eq!(body, encode_multipart(&boundary, &fields, &vec![part(b"abc")]));
    let (other, _) = build_multipart(&fields, &Vec::new());
    assert_ne!(boundary, other);
}

fn entry(k: &str, v: &str) -> Result<SeekEntry, RequestError> {
    Ok(SeekEntry { keys: vec![k.to_string()], values: v.to_string() })
}

#[test]
fn seek_stream_scenario() {
    // A store holding abc, bcd, cde and def, sought from "bcd" with no end and no limit:
    // the service answers three steps and then fails the fourth.
    let mut seek = KeyValueSeek::new("alice", "pod", "table", None);
    let replies = vec![
        entry("bcd", "efg"),
        entry("cde", "fgh"),
        entry("def", "ghi"),
        Err(RequestError::Rejected { message: "no more".to_string(), code: 400 }),
    ];
    let mut got = Vec::new();
    for reply in replies {
        let plan = seek.next_request("http://h/v1", "tok").unwrap();
        assert_eq!(plan.method, Method::Get);
        assert_eq!(plan.uri, "http://h/v1/kv/seek/next?pod_name=pod&table_name=table");
        match seek.on_reply(reply) {
            Some(kv) => got.push(kv),
            None => break,
        }
    }
    assert_eq!(
        got,
        vec![
            ("bcd".to_string(), "efg".to_string()),
            ("cde".to_string(), "fgh".to_string()),
            ("def".to_string(), "ghi".to_string()),
        ]
    );
    assert!(seek.is_finished());
    assert!(seek.next_request("http://h/v1", "tok").is_none());
    assert_eq!(seek.on_reply(entry("zzz", "late")), None);
    assert!(seek.is_finished());
}

#[test]
fn seek_reply_without_key_ends() {
    let mut seek = KeyValueSeek::new("u", "p", "s", Some(3));
    assert_eq!(seek.on_reply(Ok(SeekEntry { keys: Vec::new(), values: String::new() })), None);
    assert!(seek.is_finished());
}

#[test]
fn seek_first_key_of_many() {
    let mut seek = KeyValueSeek::new("u", "p", "s", None);
    let r = seek.on_reply(Ok(SeekEntry {
        keys: vec!["k1".to_string(), "k2".to_string()],
        values: "v".to_string(),
    }));
    assert_eq!(r, Some(("k1".to_string(), "v".to_string())));
    assert!(!seek.is_finished());
    assert_eq!(seek.username(), "u");
}

#[test]
fn seek_size_hint() {
    assert_eq!(KeyValueSeek::new("u", "p", "s", Some(5)).size_hint(), (0, Some(5)));
    assert_eq!(KeyValueSeek::new("u", "p", "s", None).size_hint(), (0, None));
}
