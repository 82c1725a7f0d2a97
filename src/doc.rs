//! Document tables: their schemas and records.
use vstd::prelude::*;
use vstd::multiset::Multiset;
use crate::error::FairOSError;
use crate::order::{lemma_map_keeps_multiset, sort_by_name, sorted_by_name, Named};
use crate::multipart::{multipart_body, multipart_request, valid_boundary, StreamPart};
use crate::text::{decimal, parse_u32, push_char, push_decimal, push_str, u32_of};
use crate::transport::{
    auth_headers, headers_view, multipart_type, pairs_view, uri_text, Method, ReplyKind,
    RequestPlan,
};

verus! {

broadcast use vstd::seq_lib::group_to_multiset_ensures;

/// The type of an indexed document field.
#[derive(Debug, Clone, Copy, PartialEq, Eq, Structural)]
pub enum FieldType {
    Str,
    Number,
    /// A nested object.
    Object,
}

/// A document table and its indexed fields, ordered by name.
#[derive(Debug, PartialEq)]
pub struct DocumentTable {
    pub name: String,
    pub fields: Vec<(String, FieldType)>,
}

/// An indexed field as the listing reply gives it.
#[derive(Debug)]
pub struct DocListPropertyResponse {
    pub name: String,
    pub type_code: u32,
}

/// A table as the listing reply gives it.
#[derive(Debug)]
pub struct DocListTableResponse {
    pub table_name: String,
    pub indexes: Vec<DocListPropertyResponse>,
}

/// The name the service knows a field type by.
pub open spec fn field_type_name_of(t: FieldType) -> Seq<char> {
    match t {
        FieldType::Str => "string"@,
        FieldType::Number => "number"@,
        FieldType::Object => "map"@,
    }
}

/// The field type a listing reply gives by number.
pub open spec fn field_type_of_code(code: u32) -> Option<FieldType> {
    if code == 2 {
        Some(FieldType::Str)
    } else if code == 3 {
        Some(FieldType::Number)
    } else if code == 4 {
        Some(FieldType::Object)
    } else {
        None
    }
}

/// `name=type`.
pub open spec fn field_text(f: (String, FieldType)) -> Seq<char> {
    f.0@ + seq!['='] + field_type_name_of(f.1)
}

/// The schema of a new table: each field as `name=type`, joined by `,`.
pub open spec fn schema_of(fields: Seq<(String, FieldType)>) -> Seq<char>
    decreases fields.len(),
{
    if fields.len() == 0 {
        Seq::empty()
    } else if fields.len() == 1 {
        field_text(fields[0])
    } else {
        schema_of(fields.drop_last()) + seq![','] + field_text(fields.last())
    }
}

/// The name the service knows a field type by.
pub fn field_type_name(t: FieldType) -> (r: &'static str)
    ensures
        r@ == field_type_name_of(t),
{
    match t {
        FieldType::Str => "string",
        FieldType::Number => "number",
        FieldType::Object => "map",
    }
}

/// Reads the field type a listing reply gives by number.
pub fn field_type_from_code(code: u32) -> (r: Result<FieldType, FairOSError>)
    ensures
        match r {
            Ok(t) => field_type_of_code(code) == Some(t),
            Err(x) => field_type_of_code(code) is None && x == FairOSError::DecodeFailed,
        },
{
    if code == 2 {
        Ok(FieldType::Str)
    } else if code == 3 {
        Ok(FieldType::Number)
    } else if code == 4 {
        Ok(FieldType::Object)
    } else {
        Err(FairOSError::DecodeFailed)
    }
}

/// The schema text of a new table, fields in the order given.
pub fn schema_text(fields: &Vec<(String, FieldType)>) -> (r: String)
    ensures
        r@ == schema_of(fields@),
{
    let mut out = String::new();
    let mut i: usize = 0;
    while i < fields.len()
        invariant
            i <= fields@.len(),
            out@ == schema_of(fields@.subrange(0, i as int)),
        decreases fields@.len() - i,
    {
        if i > 0 {
            push_char(&mut out, ',');
        }
        push_str(&mut out, fields[i].0.as_str());
        push_char(&mut out, '=');
        push_str(&mut out, field_type_name(fields[i].1));
        proof {
            let q = fields@.subrange(0, i + 1);
            assert(q.drop_last() =~= fields@.subrange(0, i as int));
            if i == 0 {
                assert(schema_of(fields@.subrange(0, 0)) == Seq::<char>::empty());
            }
        }
        assert(out@ =~= schema_of(fields@.subrange(0, i + 1)));
        i = i + 1;
    }
    assert(fields@.subrange(0, fields@.len() as int) =~= fields@);
    out
}

impl Named for (String, FieldType) {
    open spec fn name_of(&self) -> Seq<char> {
        self.0@
    }

    fn name_str(&self) -> (r: &str) {
        self.0.as_str()
    }
}

impl Named for DocumentTable {
    open spec fn name_of(&self) -> Seq<char> {
        self.name@
    }

    fn name_str(&self) -> (r: &str) {
        self.name.as_str()
    }
}

/// A field's name and type.
pub open spec fn field_views() -> spec_fn((String, FieldType)) -> (Seq<char>, FieldType) {
    |f: (String, FieldType)| (f.0@, f.1)
}

/// A listed field's name and the type its number stands for.
pub open spec fn listed_fields() -> spec_fn(DocListPropertyResponse) -> (Seq<char>, FieldType) {
    |p: DocListPropertyResponse| (p.name@, field_type_of_code(p.type_code)->Some_0)
}

/// A table's name and the multiset of its fields.
pub open spec fn table_view(d: DocumentTable) -> (Seq<char>, Multiset<(Seq<char>, FieldType)>) {
    (d.name@, d.fields@.map_values(field_views()).to_multiset())
}

/// `table_view`, as a function value.
pub open spec fn table_views() -> spec_fn(DocumentTable) -> (Seq<char>, Multiset<(Seq<char>, FieldType)>) {
    |d: DocumentTable| table_view(d)
}

/// The name and the multiset of fields of a listed table.
pub open spec fn listed_table(t: DocListTableResponse) -> (Seq<char>, Multiset<(Seq<char>, FieldType)>) {
    (t.table_name@, t.indexes@.map_values(listed_fields()).to_multiset())
}

/// `listed_table`, as a function value.
pub open spec fn listed_tables() -> spec_fn(DocListTableResponse) -> (Seq<char>, Multiset<(Seq<char>, FieldType)>) {
    |t: DocListTableResponse| listed_table(t)
}

/// Whether every field of a listed table has a known type number.
pub open spec fn table_codes_valid(t: DocListTableResponse) -> bool {
    forall|k: int| 0 <= k < t.indexes@.len() ==> (#[trigger] field_type_of_code(t.indexes@[k].type_code)) is Some
}

/// Whether every field of every listed table has a known type number.
pub open spec fn all_codes_valid(ts: Seq<DocListTableResponse>) -> bool {
    forall|k: int| 0 <= k < ts.len() ==> table_codes_valid(#[trigger] ts[k])
}

/// Decodes one listed table, its fields in order of their names.
pub fn document_table_from(t: &DocListTableResponse) -> (r: Result<DocumentTable, FairOSError>)
    ensures
        match r {
            Ok(d) => (table_view(d) == listed_table(*t) && sorted_by_name(d.fields@)),
            Err(x) => (!table_codes_valid(*t) && x == FairOSError::DecodeFailed),
        },
{
    let mut fields: Vec<(String, FieldType)> = Vec::new();
    let mut i: usize = 0;
    while i < t.indexes.len()
        invariant
            i <= t.indexes@.len(),
            fields@.len() == i,
            forall|k: int|
                0 <= k < i ==> (#[trigger] field_type_of_code(t.indexes@[k].type_code)) is Some
                    && field_views()(fields@[k]) == listed_fields()(t.indexes@[k]),
        decreases t.indexes@.len() - i,
    {
        match field_type_from_code(t.indexes[i].type_code) {
            Ok(ft) => fields.push((t.indexes[i].name.clone(), ft)),
            Err(x) => {
                return Err(x);
            },
        }
        i = i + 1;
    }
    assert(fields@.map_values(field_views()) =~= t.indexes@.map_values(listed_fields()));
    let ghost unsorted = fields@;
    sort_by_name(&mut fields);
    proof {
        lemma_map_keeps_multiset(fields@, unsorted, field_views());
    }
    Ok(DocumentTable { name: t.table_name.clone(), fields })
}

/// Decodes the tables of a listing reply, in order of their names, the
/// fields of each in order of theirs.
pub fn document_tables_from(ts: &Vec<DocListTableResponse>) -> (r: Result<Vec<DocumentTable>, FairOSError>)
    ensures
        match r {
            Ok(v) => (v@.map_values(table_views()).to_multiset() == ts@.map_values(
                listed_tables(),
            ).to_multiset() && sorted_by_name(v@) && forall|k: int|
                0 <= k < v@.len() ==> sorted_by_name(#[trigger] v@[k].fields@)),
            Err(x) => (!all_codes_valid(ts@) && x == FairOSError::DecodeFailed),
        },
{
    let mut out: Vec<DocumentTable> = Vec::new();
    let mut i: usize = 0;
    while i < ts.len()
        invariant
            i <= ts@.len(),
            out@.len() == i,
            forall|k: int|
                0 <= k < i ==> table_view(#[trigger] out@[k]) == listed_table(ts@[k])
                    && sorted_by_name(out@[k].fields@),
        decreases ts@.len() - i,
    {
        match document_table_from(&ts[i]) {
            Ok(d) => out.push(d),
            Err(x) => {
                assert(!table_codes_valid(ts@[i as int]));
                return Err(x);
            },
        }
        i = i + 1;
    }
    assert(out@.map_values(table_views()) =~= ts@.map_values(listed_tables()));
    let ghost unsorted = out@;
    sort_by_name(&mut out);
    proof {
        lemma_map_keeps_multiset(out@, unsorted, table_views());
        assert forall|k: int| 0 <= k < out@.len() implies sorted_by_name(#[trigger] out@[k].fields@) by {
            assert(out@.contains(out@[k]));
            assert(out@.to_multiset().count(out@[k]) > 0);
            assert(unsorted.to_multiset().count(out@[k]) > 0);
            assert(unsorted.contains(out@[k]));
            let j = choose|j: int| 0 <= j < unsorted.len() && unsorted[j] == out@[k];
            assert(sorted_by_name(unsorted[j].fields@));
        }
    }
    Ok(out)
}

/// The query of a document search: the pod, table and compiled filter,
/// then the limit in decimal if one is given.
pub open spec fn find_query_of(pod: Seq<char>, table: Seq<char>, expr: Seq<char>, limit: Option<u32>) -> Seq<
    (Seq<char>, Seq<char>),
> {
    seq![("pod_name"@, pod), ("table_name"@, table), ("expr"@, expr)] + match limit {
        Some(n) => seq![("limit"@, decimal(n as nat))],
        None => Seq::empty(),
    }
}

/// The query pairs of a document search.
pub fn find_query(pod_name: &str, table_name: &str, expression: &str, limit: Option<u32>) -> (r: Vec<
    (String, String),
>)
    ensures
        pairs_view(r@) == find_query_of(pod_name@, table_name@, expression@, limit),
{
    let mut q: Vec<(String, String)> = Vec::new();
    q.push((String::from_str("pod_name"), String::from_str(pod_name)));
    q.push((String::from_str("table_name"), String::from_str(table_name)));
    q.push((String::from_str("expr"), String::from_str(expression)));
    match limit {
        Some(n) => {
            let mut v = String::new();
            push_decimal(&mut v, n as u64);
            assert(v@ =~= decimal(n as nat));
            q.push((String::from_str("limit"), v));
        },
        None => {},
    }
    assert(pairs_view(q@) =~= find_query_of(pod_name@, table_name@, expression@, limit));
    q
}

/// The text fields of a JSON load.
pub open spec fn json_load_fields_of(pod: Seq<char>, table: Seq<char>) -> Seq<(Seq<char>, Seq<char>)> {
    seq![("pod_name"@, pod), ("table_name"@, table)]
}

/// The load of JSON documents into `table_name` of a pod. Returns the
/// boundary and the request.
pub fn load_json_request(
    base: &str,
    token: &str,
    pod_name: &str,
    table_name: &str,
    part: StreamPart,
) -> (r: (String, RequestPlan))
    ensures
        valid_boundary(r.0@),
        r.1.method == Method::Post,
        r.1.uri@ == uri_text(base@, "/doc/loadjson"@, Seq::empty()),
        headers_view(r.1.headers@) == seq![("Content-Type"@, multipart_type(r.0@))] + auth_headers(
            Some(token@),
        ),
        r.1.body@ == multipart_body(r.0@, json_load_fields_of(pod_name@, table_name@), seq![part]),
        r.1.reply == ReplyKind::Json,
{
    let mut fields: Vec<(String, String)> = Vec::new();
    fields.push((String::from_str("pod_name"), String::from_str(pod_name)));
    fields.push((String::from_str("table_name"), String::from_str(table_name)));
    assert(pairs_view(fields@) =~= json_load_fields_of(pod_name@, table_name@));
    let mut streams: Vec<StreamPart> = Vec::new();
    streams.push(part);
    assert(streams@ =~= seq![part]);
    let extra: Vec<(String, String)> = Vec::new();
    let r = multipart_request(base, "/doc/loadjson", token, &fields, &streams, extra, ReplyKind::Json);
    assert(headers_view(r.1.headers@) =~= seq![("Content-Type"@, multipart_type(r.0@))] + auth_headers(
        Some(token@),
    ));
    r
}

/// Reads the document count, which the service sends as the message of
/// its reply.
pub fn count_from_message(message: &str) -> (r: Result<u32, FairOSError>)
    ensures
        match r {
            Ok(n) => u32_of(message@) == Some(n),
            Err(x) => u32_of(message@) is None && x == FairOSError::DecodeFailed,
        },
{
    match parse_u32(message) {
        Some(n) => Ok(n),
        None => Err(FairOSError::DecodeFailed),
    }
}

} // verus!
