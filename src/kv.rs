//! Key-value stores: their records, and the decoding of stored values.
use vstd::prelude::*;
use crate::error::FairOSError;
use crate::json::{
    json_member, json_string_literal, opt_num_json, opt_str_json, push_opt_num_member,
    push_opt_str_member, push_str_member,
};
use crate::multipart::{multipart_body, multipart_request, valid_boundary, StreamPart};
use crate::text::{push_bytes, push_char};
use crate::transport::{
    auth_headers, headers_view, multipart_type, opt_view, pairs_view, uri_text, Method, ReplyKind,
    RequestPlan,
};
use vstd::utf8::encode_utf8;
use crate::order::{lemma_map_keeps_multiset, sort_by_name, sorted_by_name, Named};

verus! {

/// The kind of key a store is indexed by.
#[derive(Debug, Clone, Copy, PartialEq, Eq, Structural)]
pub enum IndexType {
    Str,
    Number,
}

/// A key-value store of a pod.
#[derive(Debug, PartialEq)]
pub struct KeyValueStore {
    pub name: String,
    pub indexes: Vec<String>,
}

/// A store as the listing reply gives it.
#[derive(Debug)]
pub struct KvListTableResponse {
    pub table_name: String,
    pub indexes: Vec<String>,
}

impl Named for KeyValueStore {
    open spec fn name_of(&self) -> Seq<char> {
        self.name@
    }

    fn name_str(&self) -> (r: &str) {
        self.name.as_str()
    }
}

/// The name and index names of a store.
pub open spec fn store_view(s: KeyValueStore) -> (Seq<char>, Seq<Seq<char>>) {
    (s.name@, s.indexes@.map_values(|x: String| x@))
}

/// `store_view`, as a function value.
pub open spec fn store_views() -> spec_fn(KeyValueStore) -> (Seq<char>, Seq<Seq<char>>) {
    |s: KeyValueStore| store_view(s)
}

/// `listed_store`, as a function value.
pub open spec fn listed_stores() -> spec_fn(KvListTableResponse) -> (Seq<char>, Seq<Seq<char>>) {
    |t: KvListTableResponse| listed_store(t)
}

/// The name and index names of the store a listing entry describes.
pub open spec fn listed_store(t: KvListTableResponse) -> (Seq<char>, Seq<Seq<char>>) {
    (t.table_name@, t.indexes@.map_values(|x: String| x@))
}

/// The stores of a listing reply, in order of their names.
pub fn kv_stores_from(tables: &Vec<KvListTableResponse>) -> (r: Vec<KeyValueStore>)
    ensures
        r@.map_values(store_views()).to_multiset() == tables@.map_values(listed_stores()).to_multiset(),
        sorted_by_name(r@),
{
    let mut out: Vec<KeyValueStore> = Vec::new();
    let mut i: usize = 0;
    while i < tables.len()
        invariant
            i <= tables@.len(),
            out@.len() == i,
            forall|k: int| 0 <= k < i ==> store_view(#[trigger] out@[k]) == listed_store(tables@[k]),
        decreases tables@.len() - i,
    {
        let name = tables[i].table_name.clone();
        let indexes = tables[i].indexes.clone();
        assert(indexes@ =~= tables@[i as int].indexes@);
        out.push(KeyValueStore { name, indexes });
        i = i + 1;
    }
    assert(out@.map_values(store_views()) =~= tables@.map_values(listed_stores()));
    let ghost unsorted = out@;
    sort_by_name(&mut out);
    proof {
        lemma_map_keeps_multiset(out@, unsorted, store_views());
    }
    out
}

/// The name the service knows an index type by.
pub open spec fn index_type_name_of(t: IndexType) -> Seq<char> {
    match t {
        IndexType::Str => "string"@,
        IndexType::Number => "number"@,
    }
}

/// The name the service knows an index type by.
pub fn index_type_name(t: IndexType) -> (r: &'static str)
    ensures
        r@ == index_type_name_of(t),
{
    match t {
        IndexType::Str => "string",
        IndexType::Number => "number",
    }
}

/// The body that opens a seek over a key range: the members in the order
/// of their names, an absent end key or limit written as `null`.
pub open spec fn seek_setup_text(
    pod: Seq<char>,
    store: Seq<char>,
    start: Seq<char>,
    end: Option<Seq<char>>,
    limit: Option<u32>,
) -> Seq<char> {
    seq!['{'] + json_member("end_prefix"@, opt_str_json(end)) + seq![','] + json_member(
        "limit"@,
        opt_num_json(limit),
    ) + seq![','] + json_member("pod_name"@, json_string_literal(pod)) + seq![','] + json_member(
        "start_prefix"@,
        json_string_literal(start),
    ) + seq![','] + json_member("table_name"@, json_string_literal(store)) + seq!['}']
}

/// The JSON body that opens a seek from `start_key` over `store` of `pod`.
pub fn seek_setup_body(
    pod: &str,
    store: &str,
    start_key: &str,
    end_key: Option<&str>,
    limit: Option<u32>,
) -> (r: Vec<u8>)
    ensures
        r@ == encode_utf8(seek_setup_text(pod@, store@, start_key@, opt_view(end_key), limit)),
{
    let mut out = String::new();
    push_char(&mut out, '{');
    push_opt_str_member(&mut out, "end_prefix", end_key);
    push_char(&mut out, ',');
    push_opt_num_member(&mut out, "limit", limit);
    push_char(&mut out, ',');
    push_str_member(&mut out, "pod_name", pod);
    push_char(&mut out, ',');
    push_str_member(&mut out, "start_prefix", start_key);
    push_char(&mut out, ',');
    push_str_member(&mut out, "table_name", store);
    push_char(&mut out, '}');
    assert(out@ =~= seek_setup_text(pod@, store@, start_key@, opt_view(end_key), limit));
    let mut r: Vec<u8> = Vec::new();
    push_bytes(&mut r, out.as_str().as_bytes());
    r
}

/// The text fields of a CSV load: the pod and store, and, to load into
/// memory, a `memory` field that repeats the store's name.
pub open spec fn csv_fields_of(pod: Seq<char>, store: Seq<char>, memory: bool) -> Seq<
    (Seq<char>, Seq<char>),
> {
    seq![("pod_name"@, pod), ("table_name"@, store)] + if memory {
        seq![("memory"@, store)]
    } else {
        Seq::empty()
    }
}

/// The load of CSV content into `store` of `pod`. Returns the boundary and
/// the request.
pub fn load_csv_request(
    base: &str,
    token: &str,
    pod: &str,
    store: &str,
    part: StreamPart,
    memory: bool,
) -> (r: (String, RequestPlan))
    ensures
        valid_boundary(r.0@),
        r.1.method == Method::Post,
        r.1.uri@ == uri_text(base@, "/kv/loadcsv"@, Seq::empty()),
        headers_view(r.1.headers@) == seq![("Content-Type"@, multipart_type(r.0@))] + auth_headers(
            Some(token@),
        ),
        r.1.body@ == multipart_body(r.0@, csv_fields_of(pod@, store@, memory), seq![part]),
        r.1.reply == ReplyKind::Json,
{
    let mut fields: Vec<(String, String)> = Vec::new();
    fields.push((String::from_str("pod_name"), String::from_str(pod)));
    fields.push((String::from_str("table_name"), String::from_str(store)));
    if memory {
        fields.push((String::from_str("memory"), String::from_str(store)));
    }
    assert(pairs_view(fields@) =~= csv_fields_of(pod@, store@, memory));
    let mut streams: Vec<StreamPart> = Vec::new();
    streams.push(part);
    assert(streams@ =~= seq![part]);
    let extra: Vec<(String, String)> = Vec::new();
    let r = multipart_request(base, "/kv/loadcsv", token, &fields, &streams, extra, ReplyKind::Json);
    assert(headers_view(r.1.headers@) =~= seq![("Content-Type"@, multipart_type(r.0@))] + auth_headers(
        Some(token@),
    ));
    r
}

/// What a base64 text decodes to under the standard alphabet with
/// padding, or `None` where it is not such a text.
pub uninterp spec fn base64_decoded(s: Seq<char>) -> Option<Seq<u8>>;

/// Relies on `base64::decode` (standard alphabet, padded): the decoded
/// bytes, or an error where the text is not valid base64.
#[verifier::external_body]
fn decode_base64(s: &str) -> (r: Option<Vec<u8>>)
    ensures
        match r {
            Some(b) => base64_decoded(s@) == Some(b@),
            None => base64_decoded(s@) is None,
        },
{
    base64::decode(s).ok()
}

/// Decodes a stored value, which the service sends in base64.
pub fn decode_value(s: &str) -> (r: Result<Vec<u8>, FairOSError>)
    ensures
        match r {
            Ok(b) => base64_decoded(s@) == Some(b@),
            Err(x) => base64_decoded(s@) is None && x == FairOSError::DecodeFailed,
        },
{
    match decode_base64(s) {
        Some(b) => Ok(b),
        None => Err(FairOSError::DecodeFailed),
    }
}

/// Whether every text of a list is valid base64.
pub open spec fn all_base64(v: Seq<String>) -> bool {
    forall|k: int| 0 <= k < v.len() ==> (#[trigger] base64_decoded(v[k]@)) is Some
}

/// Decodes a list of base64 values, in order; fails if any does not decode.
pub fn decode_values(v: &Vec<String>) -> (r: Result<Vec<Vec<u8>>, FairOSError>)
    ensures
        match r {
            Ok(out) => (out@.len() == v@.len() && forall|k: int|
                0 <= k < v@.len() ==> base64_decoded(#[trigger] v@[k]@) == Some(out@[k]@)),
            Err(x) => (!all_base64(v@) && x == FairOSError::DecodeFailed),
        },
{
    let mut out: Vec<Vec<u8>> = Vec::new();
    let mut i: usize = 0;
    while i < v.len()
        invariant
            i <= v@.len(),
            out@.len() == i,
            forall|k: int| 0 <= k < i ==> base64_decoded(#[trigger] v@[k]@) == Some(out@[k]@),
        decreases v@.len() - i,
    {
        match decode_value(v[i].as_str()) {
            Ok(b) => out.push(b),
            Err(x) => {
                assert(base64_decoded(v@[i as int]@) is None);
                return Err(x);
            },
        }
        i = i + 1;
    }
    Ok(out)
}

} // verus!
