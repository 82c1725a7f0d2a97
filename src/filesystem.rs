//! Directories and files: the records the client hands out, the replies
//! the service sends for them, and the decoding from one to the other.
//!
//! The service writes every number as a decimal string; a reply whose
//! numbers do not read, or that names an unknown compression, does not
//! decode.
use vstd::prelude::*;
use crate::error::FairOSError;
use crate::text::{parse_u32, parse_u64, str_eq, u32_of, u64_of};
use crate::multipart::{multipart_body, multipart_request, valid_boundary, StreamPart};
use crate::transport::{
    auth_headers, headers_view, multipart_type, opt_string_view, pairs_view, uri_text, Method,
    ReplyKind, RequestPlan,
};

verus! {

#[derive(Debug)]
pub struct DirEntry {
    pub name: String,
    pub content_type: String,
    pub creation_time: u64,
    pub modification_time: u64,
    pub access_time: u64,
}

#[derive(Debug)]
pub struct FileEntry {
    pub name: String,
    pub content_type: String,
    pub size: u32,
    pub block_size: u32,
    pub creation_time: u64,
    pub modification_time: u64,
    pub access_time: u64,
}

#[derive(Debug)]
pub struct DirInfo {
    pub pod_name: String,
    pub path: String,
    pub name: String,
    pub creation_time: u64,
    pub modification_time: u64,
    pub access_time: u64,
    pub no_of_dirs: u32,
    pub no_of_files: u32,
}

/// How a file's blocks are compressed.
#[derive(Debug, Clone, Copy, PartialEq, Eq, Structural)]
pub enum Compression {
    Gzip,
    Snappy,
}

#[derive(Debug, PartialEq)]
pub struct FileBlock {
    pub name: String,
    pub reference: String,
    pub size: u32,
    pub compressed_size: u32,
}

#[derive(Debug)]
pub struct FileInfo {
    pub pod_name: String,
    pub path: String,
    pub name: String,
    pub content_type: Option<String>,
    pub size: u32,
    pub block_size: u32,
    pub compression: Option<Compression>,
    pub creation_time: u64,
    pub modification_time: u64,
    pub access_time: u64,
    pub blocks: Vec<FileBlock>,
}

#[derive(Debug)]
pub struct SharedFileInfo {
    pub pod_name: String,
    pub name: String,
    pub content_type: Option<String>,
    pub size: u32,
    pub block_size: u32,
    pub no_of_blocks: u32,
    pub compression: Option<Compression>,
    pub sender: String,
    pub receiver: String,
    pub shared_time: u64,
}

/// A directory as the listing reply gives it.
#[derive(Debug)]
pub struct DirEntryResponse {
    pub name: String,
    pub content_type: String,
    pub creation_time: String,
    pub modification_time: String,
    pub access_time: String,
}

/// A file as the listing reply gives it.
#[derive(Debug)]
pub struct FileEntryResponse {
    pub name: String,
    pub content_type: String,
    pub size: String,
    pub block_size: String,
    pub creation_time: String,
    pub modification_time: String,
    pub access_time: String,
}

/// The directory status reply.
#[derive(Debug)]
pub struct DirStatResponse {
    pub pod_name: String,
    pub dir_path: String,
    pub dir_name: String,
    pub creation_time: String,
    pub modification_time: String,
    pub access_time: String,
    pub no_of_directories: String,
    pub no_of_files: String,
}

/// One block in the file status reply.
#[derive(Debug)]
pub struct FileBlockResponse {
    pub name: String,
    pub reference: String,
    pub size: String,
    pub compressed_size: String,
}

/// The file status reply.
#[derive(Debug)]
pub struct FileStatResponse {
    pub pod_name: String,
    pub file_path: String,
    pub file_name: String,
    pub content_type: String,
    pub file_size: String,
    pub block_size: String,
    pub compression: String,
    pub creation_time: String,
    pub modification_time: String,
    pub access_time: String,
    pub blocks: Option<Vec<FileBlockResponse>>,
}

/// The reply about a file shared with the user.
#[derive(Debug)]
pub struct FileReceiveInfoResponse {
    pub pod_name: String,
    pub name: String,
    pub content_type: String,
    pub size: String,
    pub block_size: String,
    pub number_of_blocks: String,
    pub compression: String,
    pub source_address: String,
    pub dest_address: String,
    pub shared_time: String,
}

/// The compression a reply names: `gzip`, `snappy`, or none when empty.
/// Any other name does not decode.
pub open spec fn compression_of(s: Seq<char>) -> Option<Option<Compression>> {
    if s == "gzip"@ {
        Some(Some(Compression::Gzip))
    } else if s == "snappy"@ {
        Some(Some(Compression::Snappy))
    } else if s.len() == 0 {
        Some(None)
    } else {
        None
    }
}

/// The name the service knows a compression by.
pub open spec fn compression_name_of(c: Compression) -> Seq<char> {
    match c {
        Compression::Gzip => "gzip"@,
        Compression::Snappy => "snappy"@,
    }
}

/// A media type as replies give it: the empty string means none.
pub open spec fn content_type_of(s: Seq<char>) -> Option<Seq<char>> {
    if s.len() == 0 {
        None
    } else {
        Some(s)
    }
}

pub open spec fn dir_entry_matches(e: DirEntry, r: DirEntryResponse) -> bool {
    &&& e.name@ == r.name@
    &&& e.content_type@ == r.content_type@
    &&& u64_of(r.creation_time@) == Some(e.creation_time)
    &&& u64_of(r.modification_time@) == Some(e.modification_time)
    &&& u64_of(r.access_time@) == Some(e.access_time)
}

pub open spec fn dir_entry_valid(r: DirEntryResponse) -> bool {
    &&& u64_of(r.creation_time@) is Some
    &&& u64_of(r.modification_time@) is Some
    &&& u64_of(r.access_time@) is Some
}

pub open spec fn file_entry_matches(e: FileEntry, r: FileEntryResponse) -> bool {
    &&& e.name@ == r.name@
    &&& e.content_type@ == r.content_type@
    &&& u32_of(r.size@) == Some(e.size)
    &&& u32_of(r.block_size@) == Some(e.block_size)
    &&& u64_of(r.creation_time@) == Some(e.creation_time)
    &&& u64_of(r.modification_time@) == Some(e.modification_time)
    &&& u64_of(r.access_time@) == Some(e.access_time)
}

pub open spec fn file_entry_valid(r: FileEntryResponse) -> bool {
    &&& u32_of(r.size@) is Some
    &&& u32_of(r.block_size@) is Some
    &&& u64_of(r.creation_time@) is Some
    &&& u64_of(r.modification_time@) is Some
    &&& u64_of(r.access_time@) is Some
}

pub open spec fn dir_info_matches(i: DirInfo, r: DirStatResponse) -> bool {
    &&& i.pod_name@ == r.pod_name@
    &&& i.path@ == r.dir_path@
    &&& i.name@ == r.dir_name@
    &&& u64_of(r.creation_time@) == Some(i.creation_time)
    &&& u64_of(r.modification_time@) == Some(i.modification_time)
    &&& u64_of(r.access_time@) == Some(i.access_time)
    &&& u32_of(r.no_of_directories@) == Some(i.no_of_dirs)
    &&& u32_of(r.no_of_files@) == Some(i.no_of_files)
}

pub open spec fn dir_stat_valid(r: DirStatResponse) -> bool {
    &&& u64_of(r.creation_time@) is Some
    &&& u64_of(r.modification_time@) is Some
    &&& u64_of(r.access_time@) is Some
    &&& u32_of(r.no_of_directories@) is Some
    &&& u32_of(r.no_of_files@) is Some
}

pub open spec fn block_matches(b: FileBlock, r: FileBlockResponse) -> bool {
    &&& b.name@ == r.name@
    &&& b.reference@ == r.reference@
    &&& u32_of(r.size@) == Some(b.size)
    &&& u32_of(r.compressed_size@) == Some(b.compressed_size)
}

pub open spec fn block_valid(r: FileBlockResponse) -> bool {
    u32_of(r.size@) is Some && u32_of(r.compressed_size@) is Some
}

/// The blocks of a status reply; a reply without the list has no blocks.
pub open spec fn block_list(r: Option<Vec<FileBlockResponse>>) -> Seq<FileBlockResponse> {
    match r {
        Some(v) => v@,
        None => Seq::empty(),
    }
}

pub open spec fn file_info_matches(i: FileInfo, r: FileStatResponse) -> bool {
    &&& i.pod_name@ == r.pod_name@
    &&& i.path@ == r.file_path@
    &&& i.name@ == r.file_name@
    &&& opt_string_view(i.content_type) == content_type_of(r.content_type@)
    &&& u32_of(r.file_size@) == Some(i.size)
    &&& u32_of(r.block_size@) == Some(i.block_size)
    &&& compression_of(r.compression@) == Some(i.compression)
    &&& u64_of(r.creation_time@) == Some(i.creation_time)
    &&& u64_of(r.modification_time@) == Some(i.modification_time)
    &&& u64_of(r.access_time@) == Some(i.access_time)
    &&& i.blocks@.len() == block_list(r.blocks).len()
    &&& forall|k: int|
        0 <= k < i.blocks@.len() ==> block_matches(#[trigger] i.blocks@[k], block_list(r.blocks)[k])
}

pub open spec fn file_stat_valid(r: FileStatResponse) -> bool {
    &&& u32_of(r.file_size@) is Some
    &&& u32_of(r.block_size@) is Some
    &&& compression_of(r.compression@) is Some
    &&& u64_of(r.creation_time@) is Some
    &&& u64_of(r.modification_time@) is Some
    &&& u64_of(r.access_time@) is Some
    &&& forall|k: int|
        0 <= k < block_list(r.blocks).len() ==> block_valid(#[trigger] block_list(r.blocks)[k])
}

pub open spec fn shared_file_info_matches(i: SharedFileInfo, r: FileReceiveInfoResponse) -> bool {
    &&& i.pod_name@ == r.pod_name@
    &&& i.name@ == r.name@
    &&& opt_string_view(i.content_type) == content_type_of(r.content_type@)
    &&& u32_of(r.size@) == Some(i.size)
    &&& u32_of(r.block_size@) == Some(i.block_size)
    &&& u32_of(r.number_of_blocks@) == Some(i.no_of_blocks)
    &&& compression_of(r.compression@) == Some(i.compression)
    &&& i.sender@ == r.source_address@
    &&& i.receiver@ == r.dest_address@
    &&& u64_of(r.shared_time@) == Some(i.shared_time)
}

pub open spec fn shared_file_valid(r: FileReceiveInfoResponse) -> bool {
    &&& u32_of(r.size@) is Some
    &&& u32_of(r.block_size@) is Some
    &&& u32_of(r.number_of_blocks@) is Some
    &&& compression_of(r.compression@) is Some
    &&& u64_of(r.shared_time@) is Some
}

/// Reads the compression a reply names.
pub fn compression_from(s: &str) -> (r: Result<Option<Compression>, FairOSError>)
    ensures
        match r {
            Ok(c) => compression_of(s@) == Some(c),
            Err(e) => compression_of(s@) is None && e == FairOSError::DecodeFailed,
        },
{
    if str_eq(s, "gzip") {
        Ok(Some(Compression::Gzip))
    } else if str_eq(s, "snappy") {
        Ok(Some(Compression::Snappy))
    } else if s.is_empty() {
        Ok(None)
    } else {
        Err(FairOSError::DecodeFailed)
    }
}

/// The name the service knows a compression by.
pub fn compression_name(c: Compression) -> (r: &'static str)
    ensures
        r@ == compression_name_of(c),
{
    match c {
        Compression::Gzip => "gzip",
        Compression::Snappy => "snappy",
    }
}

/// The headers that ask for an upload to be compressed.
pub open spec fn compression_headers_of(c: Option<Compression>) -> Seq<(Seq<char>, Seq<char>)> {
    match c {
        Some(c) => seq![("fairOS-dfs-Compression"@, compression_name_of(c))],
        None => Seq::empty(),
    }
}

/// The headers that ask for an upload to be compressed: one naming the
/// compression, or none.
pub fn compression_headers(c: Option<Compression>) -> (r: Vec<(String, String)>)
    ensures
        headers_view(r@) == compression_headers_of(c),
{
    let mut h: Vec<(String, String)> = Vec::new();
    match c {
        Some(c) => {
            h.push((String::from_str("fairOS-dfs-Compression"), String::from_str(compression_name(c))));
        },
        None => {},
    }
    assert(headers_view(h@) =~= compression_headers_of(c));
    h
}

/// The text fields of an upload.
pub open spec fn upload_fields_of(pod: Seq<char>, dir: Seq<char>, block_size: Seq<char>) -> Seq<
    (Seq<char>, Seq<char>),
> {
    seq![("pod_name"@, pod), ("dir_path"@, dir), ("block_size"@, block_size)]
}

/// The text fields of a download.
pub open spec fn download_fields_of(pod: Seq<char>, path: Seq<char>) -> Seq<(Seq<char>, Seq<char>)> {
    seq![("pod_name"@, pod), ("file_path"@, path)]
}

/// The upload of one file into `dir` of a pod: the pod, directory and block
/// size as text fields, then the file, with the compression header when
/// one is asked for. Returns the boundary and the request.
pub fn upload_request(
    base: &str,
    token: &str,
    pod_name: &str,
    dir: &str,
    block_size: &str,
    part: StreamPart,
    compression: Option<Compression>,
) -> (r: (String, RequestPlan))
    ensures
        valid_boundary(r.0@),
        r.1.method == Method::Post,
        r.1.uri@ == uri_text(base@, "/file/upload"@, Seq::empty()),
        headers_view(r.1.headers@) == seq![("Content-Type"@, multipart_type(r.0@))] + auth_headers(
            Some(token@),
        ) + compression_headers_of(compression),
        r.1.body@ == multipart_body(r.0@, upload_fields_of(pod_name@, dir@, block_size@), seq![part]),
        r.1.reply == ReplyKind::Json,
{
    let mut fields: Vec<(String, String)> = Vec::new();
    fields.push((String::from_str("pod_name"), String::from_str(pod_name)));
    fields.push((String::from_str("dir_path"), String::from_str(dir)));
    fields.push((String::from_str("block_size"), String::from_str(block_size)));
    assert(pairs_view(fields@) =~= upload_fields_of(pod_name@, dir@, block_size@));
    let mut streams: Vec<StreamPart> = Vec::new();
    streams.push(part);
    assert(streams@ =~= seq![part]);
    multipart_request(
        base,
        "/file/upload",
        token,
        &fields,
        &streams,
        compression_headers(compression),
        ReplyKind::Json,
    )
}

/// The download of the file at `path` of a pod: a multipart request of two
/// text fields whose answer is the file's bytes. Returns the boundary and
/// the request.
pub fn download_request(base: &str, token: &str, pod_name: &str, path: &str) -> (r: (
    String,
    RequestPlan,
))
    ensures
        valid_boundary(r.0@),
        r.1.method == Method::Post,
        r.1.uri@ == uri_text(base@, "/file/download"@, Seq::empty()),
        headers_view(r.1.headers@) == seq![("Content-Type"@, multipart_type(r.0@))] + auth_headers(
            Some(token@),
        ),
        r.1.body@ == multipart_body(r.0@, download_fields_of(pod_name@, path@), Seq::empty()),
        r.1.reply == ReplyKind::Binary,
{
    let mut fields: Vec<(String, String)> = Vec::new();
    fields.push((String::from_str("pod_name"), String::from_str(pod_name)));
    fields.push((String::from_str("file_path"), String::from_str(path)));
    assert(pairs_view(fields@) =~= download_fields_of(pod_name@, path@));
    let streams: Vec<StreamPart> = Vec::new();
    let extra: Vec<(String, String)> = Vec::new();
    let r = multipart_request(base, "/file/download", token, &fields, &streams, extra, ReplyKind::Binary);
    assert(headers_view(extra@) =~= Seq::<(Seq<char>, Seq<char>)>::empty());
    assert(headers_view(r.1.headers@) =~= seq![("Content-Type"@, multipart_type(r.0@))] + auth_headers(
        Some(token@),
    ));
    r
}

/// A media type from a reply, where the empty string means none.
pub fn content_type_from(s: String) -> (r: Option<String>)
    ensures
        opt_string_view(r) == content_type_of(s@),
{
    if s.as_str().is_empty() {
        None
    } else {
        Some(s)
    }
}

/// Decodes a directory of a listing.
pub fn dir_entry_from(r: &DirEntryResponse) -> (e: Result<DirEntry, FairOSError>)
    ensures
        match e {
            Ok(d) => dir_entry_matches(d, *r),
            Err(x) => !dir_entry_valid(*r) && x == FairOSError::DecodeFailed,
        },
{
    let c = parse_u64(r.creation_time.as_str());
    let m = parse_u64(r.modification_time.as_str());
    let a = parse_u64(r.access_time.as_str());
    match (c, m, a) {
        (Some(c), Some(m), Some(a)) => Ok(
            DirEntry {
                name: r.name.clone(),
                content_type: r.content_type.clone(),
                creation_time: c,
                modification_time: m,
                access_time: a,
            },
        ),
        _ => Err(FairOSError::DecodeFailed),
    }
}

/// Decodes a file of a listing.
pub fn file_entry_from(r: &FileEntryResponse) -> (e: Result<FileEntry, FairOSError>)
    ensures
        match e {
            Ok(f) => file_entry_matches(f, *r),
            Err(x) => !file_entry_valid(*r) && x == FairOSError::DecodeFailed,
        },
{
    let s = parse_u32(r.size.as_str());
    let b = parse_u32(r.block_size.as_str());
    let c = parse_u64(r.creation_time.as_str());
    let m = parse_u64(r.modification_time.as_str());
    let a = parse_u64(r.access_time.as_str());
    match (s, b, c, m, a) {
        (Some(s), Some(b), Some(c), Some(m), Some(a)) => Ok(
            FileEntry {
                name: r.name.clone(),
                content_type: r.content_type.clone(),
                size: s,
                block_size: b,
                creation_time: c,
                modification_time: m,
                access_time: a,
            },
        ),
        _ => Err(FairOSError::DecodeFailed),
    }
}

/// Whether every directory of a listing decodes.
pub open spec fn all_dir_entries_valid(rs: Seq<DirEntryResponse>) -> bool {
    forall|k: int| 0 <= k < rs.len() ==> dir_entry_valid(#[trigger] rs[k])
}

/// Decodes the directories of a listing, in order.
pub fn dir_entries_from(rs: &Vec<DirEntryResponse>) -> (e: Result<Vec<DirEntry>, FairOSError>)
    ensures
        match e {
            Ok(v) => (v@.len() == rs@.len() && forall|k: int|
                0 <= k < v@.len() ==> dir_entry_matches(#[trigger] v@[k], rs@[k])),
            Err(x) => (x == FairOSError::DecodeFailed && !all_dir_entries_valid(rs@)),
        },
{
    let mut out: Vec<DirEntry> = Vec::new();
    let mut i: usize = 0;
    while i < rs.len()
        invariant
            i <= rs@.len(),
            out@.len() == i,
            forall|k: int| 0 <= k < i ==> dir_entry_matches(#[trigger] out@[k], rs@[k]),
        decreases rs@.len() - i,
    {
        match dir_entry_from(&rs[i]) {
            Ok(d) => out.push(d),
            Err(x) => {
                return Err(x);
            },
        }
        i = i + 1;
    }
    Ok(out)
}

/// Whether every file of a listing decodes.
pub open spec fn all_file_entries_valid(rs: Seq<FileEntryResponse>) -> bool {
    forall|k: int| 0 <= k < rs.len() ==> file_entry_valid(#[trigger] rs[k])
}

/// Decodes the files of a listing, in order.
pub fn file_entries_from(rs: &Vec<FileEntryResponse>) -> (e: Result<Vec<FileEntry>, FairOSError>)
    ensures
        match e {
            Ok(v) => (v@.len() == rs@.len() && forall|k: int|
                0 <= k < v@.len() ==> file_entry_matches(#[trigger] v@[k], rs@[k])),
            Err(x) => (x == FairOSError::DecodeFailed && !all_file_entries_valid(rs@)),
        },
{
    let mut out: Vec<FileEntry> = Vec::new();
    let mut i: usize = 0;
    while i < rs.len()
        invariant
            i <= rs@.len(),
            out@.len() == i,
            forall|k: int| 0 <= k < i ==> file_entry_matches(#[trigger] out@[k], rs@[k]),
        decreases rs@.len() - i,
    {
        match file_entry_from(&rs[i]) {
            Ok(d) => out.push(d),
            Err(x) => {
                return Err(x);
            },
        }
        i = i + 1;
    }
    Ok(out)
}

/// Decodes a directory status reply.
pub fn dir_info_from(r: &DirStatResponse) -> (e: Result<DirInfo, FairOSError>)
    ensures
        match e {
            Ok(i) => dir_info_matches(i, *r),
            Err(x) => !dir_stat_valid(*r) && x == FairOSError::DecodeFailed,
        },
{
    let c = parse_u64(r.creation_time.as_str());
    let m = parse_u64(r.modification_time.as_str());
    let a = parse_u64(r.access_time.as_str());
    let d = parse_u32(r.no_of_directories.as_str());
    let f = parse_u32(r.no_of_files.as_str());
    match (c, m, a, d, f) {
        (Some(c), Some(m), Some(a), Some(d), Some(f)) => Ok(
            DirInfo {
                pod_name: r.pod_name.clone(),
                path: r.dir_path.clone(),
                name: r.dir_name.clone(),
                creation_time: c,
                modification_time: m,
                access_time: a,
                no_of_dirs: d,
                no_of_files: f,
            },
        ),
        _ => Err(FairOSError::DecodeFailed),
    }
}

fn block_from(r: &FileBlockResponse) -> (e: Result<FileBlock, FairOSError>)
    ensures
        match e {
            Ok(b) => block_matches(b, *r),
            Err(x) => !block_valid(*r) && x == FairOSError::DecodeFailed,
        },
{
    match (parse_u32(r.size.as_str()), parse_u32(r.compressed_size.as_str())) {
        (Some(s), Some(c)) => Ok(
            FileBlock {
                name: r.name.clone(),
                reference: r.reference.clone(),
                size: s,
                compressed_size: c,
            },
        ),
        _ => Err(FairOSError::DecodeFailed),
    }
}

fn blocks_from(rs: &Option<Vec<FileBlockResponse>>) -> (e: Result<Vec<FileBlock>, FairOSError>)
    ensures
        match e {
            Ok(v) => (v@.len() == block_list(*rs).len() && forall|k: int|
                0 <= k < v@.len() ==> block_matches(#[trigger] v@[k], block_list(*rs)[k])),
            Err(x) => (x == FairOSError::DecodeFailed && !(forall|k: int|
                0 <= k < block_list(*rs).len() ==> block_valid(#[trigger] block_list(*rs)[k]))),
        },
{
    let mut out: Vec<FileBlock> = Vec::new();
    match rs {
        None => Ok(out),
        Some(v) => {
            let mut i: usize = 0;
            while i < v.len()
                invariant
                    i <= v@.len(),
                    block_list(*rs) == v@,
                    out@.len() == i,
                    forall|k: int| 0 <= k < i ==> block_matches(#[trigger] out@[k], v@[k]),
                decreases v@.len() - i,
            {
                match block_from(&v[i]) {
                    Ok(b) => out.push(b),
                    Err(x) => {
                        return Err(x);
                    },
                }
                i = i + 1;
            }
            Ok(out)
        },
    }
}

/// Decodes a file status reply: an empty media type is none, the
/// compression is read by name, and a reply without blocks has none.
pub fn file_info_from(r: &FileStatResponse) -> (e: Result<FileInfo, FairOSError>)
    ensures
        match e {
            Ok(i) => file_info_matches(i, *r),
            Err(x) => !file_stat_valid(*r) && x == FairOSError::DecodeFailed,
        },
{
    let size = parse_u32(r.file_size.as_str());
    let block_size = parse_u32(r.block_size.as_str());
    let c = parse_u64(r.creation_time.as_str());
    let m = parse_u64(r.modification_time.as_str());
    let a = parse_u64(r.access_time.as_str());
    let compression = compression_from(r.compression.as_str());
    let blocks = blocks_from(&r.blocks);
    match (size, block_size, c, m, a, compression, blocks) {
        (Some(size), Some(block_size), Some(c), Some(m), Some(a), Ok(compression), Ok(blocks)) => Ok(
            FileInfo {
                pod_name: r.pod_name.clone(),
                path: r.file_path.clone(),
                name: r.file_name.clone(),
                content_type: content_type_from(r.content_type.clone()),
                size,
                block_size,
                compression,
                creation_time: c,
                modification_time: m,
                access_time: a,
                blocks,
            },
        ),
        _ => Err(FairOSError::DecodeFailed),
    }
}

/// Decodes the reply about a file shared with the user.
pub fn shared_file_info_from(r: &FileReceiveInfoResponse) -> (e: Result<SharedFileInfo, FairOSError>)
    ensures
        match e {
            Ok(i) => shared_file_info_matches(i, *r),
            Err(x) => !shared_file_valid(*r) && x == FairOSError::DecodeFailed,
        },
{
    let size = parse_u32(r.size.as_str());
    let block_size = parse_u32(r.block_size.as_str());
    let n = parse_u32(r.number_of_blocks.as_str());
    let t = parse_u64(r.shared_time.as_str());
    let compression = compression_from(r.compression.as_str());
    match (size, block_size, n, t, compression) {
        (Some(size), Some(block_size), Some(n), Some(t), Ok(compression)) => Ok(
            SharedFileInfo {
                pod_name: r.pod_name.clone(),
                name: r.name.clone(),
                content_type: content_type_from(r.content_type.clone()),
                size,
                block_size,
                no_of_blocks: n,
                compression,
                sender: r.source_address.clone(),
                receiver: r.dest_address.clone(),
                shared_time: t,
            },
        ),
        _ => Err(FairOSError::DecodeFailed),
    }
}

/// The name the service gave the first uploaded file; a reply that lists
/// none does not decode.
pub fn uploaded_file_name(names: &Vec<String>) -> (r: Result<String, FairOSError>)
    ensures
        match r {
            Ok(n) => names@.len() > 0 && n@ == names@[0]@,
            Err(x) => names@.len() == 0 && x == FairOSError::DecodeFailed,
        },
{
    if names.len() > 0 {
        Ok(names[0].clone())
    } else {
        Err(FairOSError::DecodeFailed)
    }
}

} // verus!
