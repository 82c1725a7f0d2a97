use fairos::{
    compression_from, compression_name, content_type_from, count_from_message, decode_value,
    decode_values, dir_entries_from, dir_info_from, document_tables_from, field_type_from_code,
    field_type_name, file_entries_from, file_info_from, generate_mnemonic, index_type_name,
    kv_stores_from, parse_u32, parse_u64, schema_text, shared_file_info_from, uploaded_file_name,
    Compression, DirEntryResponse, DirStatResponse, DocListPropertyResponse, DocListTableResponse,
    DocumentTable, FairOSError, FieldType, FileBlock, FileBlockResponse, FileEntryResponse,
    FileReceiveInfoResponse, FileStatResponse, IndexType, KeyValueStore, KvListTableResponse,
};
use fairos::{json_object, JsonValue};
use rand::SeedableRng;
use rand_chacha::ChaCha20Rng;

fn s(x: &str) -> String {
    x.to_string()
}

fn stat(compression: &str, size: &str) -> FileStatResponse {
    FileStatResponse {
        pod_name: s("pod"),
        file_path: s("/Documents"),
        file_name: s("hello.txt"),
        content_type: s(""),
        file_size: s(size),
        block_size: s("1000"),
        compression: s(compression),
        creation_time: s("1650000000"),
        modification_time: s("1650000001"),
        access_time: s("1650000002"),
        blocks: None,
    }
}

#[test]
fn decimal_parsing() {
    assert_eq!(parse_u32("0"), Some(0));
    assert_eq!(parse_u32("4294967295"), Some(u32::MAX));
    assert_eq!(parse_u32("4294967296"), None);
    assert_eq!(parse_u32(""), None);
    assert_eq!(parse_u32("1a"), None);
    assert_eq!(parse_u64("18446744073709551615"), Some(u64::MAX));
    assert_eq!(parse_u64("18446744073709551616"), None);
    assert_eq!(parse_u64("99999999999999999999999"), None);
}

#[test]
fn file_info_decodes() {
    let info = file_info_from(&stat("gzip", "11")).unwrap();
    assert_eq!(info.pod_name, "pod");
    assert_eq!(info.path, "/Documents");
    assert_eq!(info.name, "hello.txt");
    assert_eq!(info.content_type, None);
    assert_eq!(info.size, 11);
    assert_eq!(info.block_size, 1_000);
    assert_eq!(info.compression, Some(Compression::Gzip));
    assert_eq!(info.creation_time, 1650000000);
    assert_eq!(info.access_time, 1650000002);
    assert_eq!(info.blocks.len(), 0);
}

#[test]
fn file_info_with_blocks_and_type() {
    let mut r = stat("", "11");
    r.content_type = s("text/plain");
    r.blocks = Some(vec![FileBlockResponse {
        name: s("block-00000"),
        reference: s("ab12"),
        size: s("11"),
        compressed_size: s("9"),
    }]);
    let info = file_info_from(&r).unwrap();
    assert_eq!(info.content_type, Some(s("text/plain")));
    assert_eq!(info.compression, None);
    assert_eq!(
        info.blocks,
        vec![FileBlock { name: s("block-00000"), reference: s("ab12"), size: 11, compressed_size: 9 }]
    );
}

#[test]
fn file_info_rejects_bad_replies() {
    assert_eq!(file_info_from(&stat("zstd", "11")).unwrap_err(), FairOSError::DecodeFailed);
    assert_eq!(file_info_from(&stat("gzip", "eleven")).unwrap_err(), FairOSError::DecodeFailed);
    let mut r = stat("snappy", "1");
    r.blocks = Some(vec![FileBlockResponse {
        name: s("b"),
        reference: s("r"),
        size: s("x"),
        compressed_size: s("1"),
    }]);
    assert_eq!(file_info_from(&r).unwrap_err(), FairOSError::DecodeFailed);
}

#[test]
fn compression_names() {
    assert_eq!(compression_from("gzip"), Ok(Some(Compression::Gzip)));
    assert_eq!(compression_from("snappy"), Ok(Some(Compression::Snappy)));
    assert_eq!(compression_from(""), Ok(None));
    assert_eq!(compression_from("GZIP"), Err(FairOSError::DecodeFailed));
    assert_eq!(compression_name(Compression::Gzip), "gzip");
    assert_eq!(compression_name(Compression::Snappy), "snappy");
    assert_eq!(content_type_from(s("")), None);
    assert_eq!(content_type_from(s("a/b")), Some(s("a/b")));
}

#[test]
fn shared_file_info_decodes() {
    let r = FileReceiveInfoResponse {
        pod_name: s("pod"),
        name: s("hello.txt"),
        content_type: s(""),
        size: s("11"),
        block_size: s("1000"),
        number_of_blocks: s("1"),
        compression: s("snappy"),
        source_address: s("0xabc"),
        dest_address: s("0xdef"),
        shared_time: s("42"),
    };
    let i = shared_file_info_from(&r).unwrap();
    assert_eq!(i.size, 11);
    assert_eq!(i.no_of_blocks, 1);
    assert_eq!(i.compression, Some(Compression::Snappy));
    assert_eq!(i.sender, "0xabc");
    assert_eq!(i.receiver, "0xdef");
    assert_eq!(i.shared_time, 42);
}

#[test]
fn listing_decodes_in_order() {
    let dirs = vec![
        DirEntryResponse {
            name: s("Music"),
            content_type: s("inode/directory"),
            creation_time: s("1"),
            modification_time: s("2"),
            access_time: s("3"),
        },
        DirEntryResponse {
            name: s("Documents"),
            content_type: s("inode/directory"),
            creation_time: s("4"),
            modification_time: s("5"),
            access_time: s("6"),
        },
    ];
    let d = dir_entries_from(&dirs).unwrap();
    assert_eq!(d.len(), 2);
    assert_eq!(d[0].name, "Music");
    assert_eq!(d[1].creation_time, 4);
    let files = vec![FileEntryResponse {
        name: s("todo.txt"),
        content_type: s(""),
        size: s("15"),
        block_size: s("1000"),
        creation_time: s("7"),
        modification_time: s("8"),
        access_time: s("9"),
    }];
    let f = file_entries_from(&files).unwrap();
    assert_eq!(f[0].size, 15);
    assert_eq!(f[0].block_size, 1000);
    let mut bad = files;
    bad[0].access_time = s("");
    assert_eq!(file_entries_from(&bad).unwrap_err(), FairOSError::DecodeFailed);
}

#[test]
fn dir_info_decodes() {
    let r = DirStatResponse {
        pod_name: s("pod"),
        dir_path: s("/"),
        dir_name: s("Documents"),
        creation_time: s("1"),
        modification_time: s("2"),
        access_time: s("3"),
        no_of_directories: s("1"),
        no_of_files: s("0"),
    };
    let i = dir_info_from(&r).unwrap();
    assert_eq!(i.name, "Documents");
    assert_eq!(i.no_of_dirs, 1);
    assert_eq!(i.no_of_files, 0);
}

#[test]
fn upload_reply_names_first_file() {
    assert_eq!(uploaded_file_name(&vec![s("hello.txt"), s("b.txt")]), Ok(s("hello.txt")));
    assert_eq!(uploaded_file_name(&Vec::new()), Err(FairOSError::DecodeFailed));
}

#[test]
fn kv_stores_sorted_by_name() {
    let tables = vec![
        KvListTableResponse { table_name: s("table2"), indexes: vec![s("StringIndex")] },
        KvListTableResponse { table_name: s("table1"), indexes: vec![s("StringIndex")] },
        KvListTableResponse { table_name: s("Table3"), indexes: Vec::new() },
    ];
    assert_eq!(
        kv_stores_from(&tables),
        vec![
            KeyValueStore { name: s("Table3"), indexes: Vec::new() },
            KeyValueStore { name: s("table1"), indexes: vec![s("StringIndex")] },
            KeyValueStore { name: s("table2"), indexes: vec![s("StringIndex")] },
        ]
    );
    assert_eq!(index_type_name(IndexType::Str), "string");
    assert_eq!(index_type_name(IndexType::Number), "number");
}

#[test]
fn stored_values_decode_from_base64() {
    assert_eq!(decode_value("aGVsbG8gd29ybGQ="), Ok(b"hello world".to_vec()));
    assert_eq!(decode_value(""), Ok(Vec::new()));
    assert_eq!(decode_value("not base64!"), Err(FairOSError::DecodeFailed));
    assert_eq!(
        decode_values(&vec![s("eyJuIjo4fQ=="), s("eyJuIjoxMH0=")]),
        Ok(vec![b"{\"n\":8}".to_vec(), b"{\"n\":10}".to_vec()])
    );
    assert_eq!(decode_values(&vec![s("YQ=="), s("%%%")]), Err(FairOSError::DecodeFailed));
}

#[test]
fn document_schema_text() {
    let fields = vec![(s("s"), FieldType::Str), (s("n"), FieldType::Number), (s("m"), FieldType::Object)];
    assert_eq!(schema_text(&fields), "s=string,n=number,m=map");
    assert_eq!(schema_text(&Vec::new()), "");
    assert_eq!(field_type_name(FieldType::Object), "map");
}

#[test]
fn document_field_codes() {
    assert_eq!(field_type_from_code(2), Ok(FieldType::Str));
    assert_eq!(field_type_from_code(3), Ok(FieldType::Number));
    assert_eq!(field_type_from_code(4), Ok(FieldType::Object));
    assert_eq!(field_type_from_code(5), Err(FairOSError::DecodeFailed));
}

#[test]
fn document_tables_sorted() {
    let prop = |n: &str, c: u32| DocListPropertyResponse { name: s(n), type_code: c };
    let tables = vec![
        DocListTableResponse { table_name: s("table2"), indexes: vec![prop("s", 2), prop("n", 3)] },
        DocListTableResponse { table_name: s("table1"), indexes: vec![prop("id", 2)] },
    ];
    assert_eq!(
        document_tables_from(&tables).unwrap(),
        vec![
            DocumentTable { name: s("table1"), fields: vec![(s("id"), FieldType::Str)] },
            DocumentTable {
                name: s("table2"),
                fields: vec![(s("n"), FieldType::Number), (s("s"), FieldType::Str)],
            },
        ]
    );
    let bad = vec![DocListTableResponse { table_name: s("t"), indexes: vec![prop("x", 9)] }];
    assert_eq!(document_tables_from(&bad).unwrap_err(), FairOSError::DecodeFailed);
}

#[test]
fn document_count_from_message() {
    assert_eq!(count_from_message("3"), Ok(3));
    assert_eq!(count_from_message("three"), Err(FairOSError::DecodeFailed));
}

#[test]
fn test_generate_mnemonic() {
    let mut rng = ChaCha20Rng::from_entropy();
    let mnemonic = generate_mnemonic(&mut rng);
    assert_eq!(mnemonic.split(" ").count(), 12);
}

#[test]
fn mnemonic_depends_on_generator_state() {
    let mut a = ChaCha20Rng::seed_from_u64(7);
    let mut b = ChaCha20Rng::seed_from_u64(7);
    let first = generate_mnemonic(&mut a);
    assert_eq!(first, generate_mnemonic(&mut b));
    assert_ne!(first, generate_mnemonic(&mut a));
}

#[test]
fn compression_header_for_upload() {
    assert_eq!(
        fairos::compression_headers(Some(Compression::Snappy)),
        vec![(s("fairOS-dfs-Compression"), s("snappy"))]
    );
    assert!(fairos::compression_headers(None).is_empty());
}

#[test]
fn json_bodies_frame_members_in_order() {
    let members = vec![
        (s("user_name"), JsonValue::Str(s("al\"ice"))),
        (s("mnemonic"), JsonValue::Null),
        (s("mutable"), JsonValue::Bool(true)),
        (s("limit"), JsonValue::Number(10)),
        (s("off"), JsonValue::Bool(false)),
    ];
    assert_eq!(
        String::from_utf8(json_object(&members)).unwrap(),
        "{\"user_name\":\"al\\\"ice\",\"mnemonic\":null,\"mutable\":true,\"limit\":10,\"off\":false}"
    );
    assert_eq!(json_object(&Vec::new()), b"{}".to_vec());
    let one = vec![(s("pod_name"), JsonValue::Str(s("p\n")))];
    assert_eq!(String::from_utf8(json_object(&one)).unwrap(), "{\"pod_name\":\"p\\n\"}");
}
