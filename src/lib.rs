//! Client library for a remote object, file, key-value and document storage
//! service spoken to over HTTP and JSON.
//!
//! This crate holds the verified protocol core: the filter-expression
//! compiler, block sizes, the session store, request building and response
//! classification, the multipart body encoder, the key-value seek cursor,
//! error mapping and the decoding of service replies into typed records.
mod block;
mod doc;
mod error;
mod expr;
mod filesystem;
mod json;
mod kv;
mod multipart;
mod order;
mod pod;
mod seek;
mod session;
mod text;
mod transport;
mod user;

pub use block::BlockSize;
pub use doc::{
    count_from_message, document_table_from, document_tables_from, field_type_from_code,
    field_type_name, find_query, load_json_request, schema_text, DocListPropertyResponse, DocListTableResponse, DocumentTable,
    FieldType,
};
pub use error::{
    domain_error, login_error, signup_error, Domain, FairOSDocumentError, FairOSError,
    FairOSFileSystemError, FairOSKeyValueError, FairOSPodError, FairOSUserError, RequestError,
};
pub use expr::{compile, Expr, ExprError, ExprValue};
pub use filesystem::{
    compression_from, compression_headers, compression_name, content_type_from,
    dir_entries_from, dir_entry_from, dir_info_from, download_request, file_entries_from,
    file_entry_from, file_info_from, upload_request, shared_file_info_from, uploaded_file_name, Compression, DirEntry,
    DirEntryResponse, DirInfo, DirStatResponse, FileBlock, FileBlockResponse, FileEntry,
    FileEntryResponse, FileInfo, FileReceiveInfoResponse, FileStatResponse, SharedFileInfo,
};
pub use json::{json_object, JsonValue};
pub use kv::{
    decode_value, decode_values, index_type_name, kv_stores_from, load_csv_request,
    seek_setup_body, IndexType, KeyValueStore, KvListTableResponse,
};
pub use multipart::{build_multipart, encode_multipart, multipart_request, StreamPart, BOUNDARY_LEN};
pub use pod::{PodInfo, SharedPodInfo};
pub use seek::{KeyValueSeek, SeekEntry};
pub use session::SessionStore;
pub use text::{parse_u32, parse_u64};
pub use transport::{
    classify_response, is_status_ok, make_uri, plan_delete, plan_get, plan_multipart, plan_post,
    session_from_set_cookie, MessageResponse, Method, ReplyKind, RequestPlan, Success, DEFAULT_URL,
};
pub use user::{generate_mnemonic, UserExport, UserInfo};
