use fairos::{
    download_request, encode_multipart, find_query, json_object, load_csv_request,
    load_json_request, seek_setup_body, upload_request, Compression, JsonValue, Method,
    ReplyKind, StreamPart, BOUNDARY_LEN,
};

fn pairs(p: &[(&str, &str)]) -> Vec<(String, String)> {
    p.iter().map(|(a, b)| (a.to_string(), b.to_string())).collect()
}

fn part(name: &str, data: &[u8]) -> StreamPart {
    StreamPart {
        name: name.to_string(),
        data: data.to_vec(),
        filename: Some("hello.txt".to_string()),
        content_type: Some("text/plain".to_string()),
    }
}

#[test]
fn upload_request_carries_fields_file_and_compression() {
    let (b, plan) = upload_request(
        "http://h/v1",
        "tok",
        "pod",
        "/Documents",
        "1K",
        part("files", b"hello world"),
        Some(Compression::Gzip),
    );
    assert_eq!(b.len(), BOUNDARY_LEN);
    assert_eq!(plan.method, Method::Post);
    assert_eq!(plan.uri, "http://h/v1/file/upload");
    assert_eq!(plan.reply, ReplyKind::Json);
    let ct = format!("multipart/form-data; boundary={}", b);
    assert_eq!(
        plan.headers,
        pairs(&[
            ("Content-Type", ct.as_str()),
            ("Cookie", "fairOS-dfs=tok"),
            ("fairOS-dfs-Compression", "gzip"),
        ])
    );
    let fields = pairs(&[("pod_name", "pod"), ("dir_path", "/Documents"), ("block_size", "1K")]);
    assert_eq!(plan.body, encode_multipart(&b, &fields, &vec![part("files", b"hello world")]));
}

#[test]
fn upload_request_without_compression() {
    let (_, plan) = upload_request("h", "t", "p", "/", "1M", part("files", b""), None);
    assert_eq!(plan.headers.len(), 2);
}

#[test]
fn download_request_reads_raw_bytes() {
    let (b, plan) = download_request("http://h/v1", "tok", "pod", "/Documents/hello.txt");
    assert_eq!(plan.uri, "http://h/v1/file/download");
    assert_eq!(plan.reply, ReplyKind::Binary);
    assert_eq!(plan.headers.len(), 2);
    let fields = pairs(&[("pod_name", "pod"), ("file_path", "/Documents/hello.txt")]);
    assert_eq!(plan.body, encode_multipart(&b, &fields, &Vec::new()));
}

#[test]
fn csv_load_request_fields() {
    let (b, plan) = load_csv_request("h", "t", "pod", "store", part("csv", b"a,b"), true);
    assert_eq!(plan.uri, "h/kv/loadcsv");
    let fields = pairs(&[("pod_name", "pod"), ("table_name", "store"), ("memory", "store")]);
    assert_eq!(plan.body, encode_multipart(&b, &fields, &vec![part("csv", b"a,b")]));
    let (b, plan) = load_csv_request("h", "t", "pod", "store", part("csv", b"a,b"), false);
    let fields = pairs(&[("pod_name", "pod"), ("table_name", "store")]);
    assert_eq!(plan.body, encode_multipart(&b, &fields, &vec![part("csv", b"a,b")]));
}

#[test]
fn json_load_request_fields() {
    let (b, plan) = load_json_request("h", "t", "pod", "table", part("json", b"[]"));
    assert_eq!(plan.uri, "h/doc/loadjson");
    let fields = pairs(&[("pod_name", "pod"), ("table_name", "table")]);
    assert_eq!(plan.body, encode_multipart(&b, &fields, &vec![part("json", b"[]")]));
}

#[test]
fn find_query_pairs() {
    assert_eq!(
        find_query("pod", "table", "n%3e9", None),
        pairs(&[("pod_name", "pod"), ("table_name", "table"), ("expr", "n%3e9")])
    );
    assert_eq!(
        find_query("pod", "table", "s=%22a%22", Some(25)),
        pairs(&[("pod_name", "pod"), ("table_name", "table"), ("expr", "s=%22a%22"), ("limit", "25")])
    );
}

#[test]
fn seek_setup_body_text() {
    assert_eq!(
        String::from_utf8(seek_setup_body("pod", "table", "bcd", None, None)).unwrap(),
        "{\"end_prefix\":null,\"limit\":null,\"pod_name\":\"pod\",\"start_prefix\":\"bcd\",\"table_name\":\"table\"}"
    );
    assert_eq!(
        String::from_utf8(seek_setup_body("p", "t", "a", Some("z"), Some(3))).unwrap(),
        "{\"end_prefix\":\"z\",\"limit\":3,\"pod_name\":\"p\",\"start_prefix\":\"a\",\"table_name\":\"t\"}"
    );
}

#[test]
fn json_escapes_control_characters() {
    let members = vec![("k".to_string(), JsonValue::Str("\u{1}\u{1f}\t\u{8}\u{c}\r\\/\u{7f}é".to_string()))];
    assert_eq!(
        String::from_utf8(json_object(&members)).unwrap(),
        "{\"k\":\"\\u0001\\u001f\\t\\b\\f\\r\\\\/\u{7f}é\"}"
    );
}
