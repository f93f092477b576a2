//! The parameters of a request, and the parameters sent upstream.

use vstd::prelude::*;
use crate::decimal::{decimal_digits, lemma_decimal_round_trip, parse_u64, parsed_u64, to_decimal};
use crate::document::{
    descend, empty_object, encode_pair, encoded_pair, has_child, json_nodes, member, parse_query,
    parsed_query, subtree, text, text_at_path, Nodes, PathStep,
};
use crate::error::RelayError;
use crate::text::{pairs_view, same_text};

verus! {

/// What a client asks for.
#[derive(Debug, PartialEq, Eq)]
pub struct RequestQueryParams {
    /// How many days back the wanted image lies.
    pub index_past: usize,
    /// How many images the upstream service is asked for.
    pub number: usize,
    /// The locale forwarded to the upstream service.
    pub locale: String,
    /// Whether the client wants the image itself rather than its address.
    pub get_image: bool,
}

/// The parameters of a request as verification sees them.
pub struct QueryParamsView {
    pub index_past: nat,
    pub number: nat,
    pub locale: Seq<char>,
    pub get_image: bool,
}

impl View for RequestQueryParams {
    type V = QueryParamsView;

    open spec fn view(&self) -> QueryParamsView {
        QueryParamsView {
            index_past: self.index_past as nat,
            number: self.number as nat,
            locale: self.locale@,
            get_image: self.get_image,
        }
    }
}

/// What a request without a query string asks for.
pub open spec fn default_params() -> QueryParamsView {
    QueryParamsView { index_past: 0, number: 1, locale: "en-US"@, get_image: false }
}

impl Default for RequestQueryParams {
    fn default() -> (r: RequestQueryParams)
        ensures
            r@ == default_params(),
    {
        RequestQueryParams {
            index_past: 0,
            number: 1,
            locale: "en-US".to_owned(),
            get_image: false,
        }
    }
}

/// The truth value that `s` writes: `true` or `false`, nothing else.
pub open spec fn parsed_bool(s: Seq<char>) -> Option<bool> {
    if s == "true"@ {
        Some(true)
    } else if s == "false"@ {
        Some(false)
    } else {
        None
    }
}

/// How a truth value is written.
pub open spec fn bool_text(b: bool) -> Seq<char> {
    if b {
        "true"@
    } else {
        "false"@
    }
}

/// Reads `true` or `false`.
pub fn parse_bool(s: &str) -> (r: Option<bool>)
    ensures
        r == parsed_bool(s@),
{
    if same_text(s, "true") {
        Some(true)
    } else if same_text(s, "false") {
        Some(false)
    } else {
        None
    }
}

/// What a document says of the field `key`.
pub enum FieldView {
    /// The document has no such field.
    Absent,
    /// The field is there and is not a plain text.
    Nested,
    /// The field is there with this text.
    Text(Seq<char>),
}

/// What `nodes` says of the field `key` of its root.
pub open spec fn field(nodes: Nodes, key: Seq<char>) -> FieldView {
    if !has_child(nodes, PathStep::Key(key)) {
        FieldView::Absent
    } else {
        match text_at_path(nodes, seq![PathStep::Key(key)]) {
            Some(t) => FieldView::Text(t),
            None => FieldView::Nested,
        }
    }
}

/// The number that a field gives: `default` where the field is absent, the
/// number it writes where that fits the machine's word, and nothing else.
pub open spec fn unsigned_field(f: FieldView, default: nat) -> Option<nat> {
    match f {
        FieldView::Absent => Some(default),
        FieldView::Nested => None,
        FieldView::Text(t) => match parsed_u64(t) {
            Some(n) => if n <= usize::MAX {
                Some(n as nat)
            } else {
                None
            },
            None => None,
        },
    }
}

/// The truth value that a field gives: `default` where the field is absent.
pub open spec fn bool_field(f: FieldView, default: bool) -> Option<bool> {
    match f {
        FieldView::Absent => Some(default),
        FieldView::Nested => None,
        FieldView::Text(t) => parsed_bool(t),
    }
}

/// The text that a field gives: `default` where the field is absent.
pub open spec fn text_field(f: FieldView, default: Seq<char>) -> Option<Seq<char>> {
    match f {
        FieldView::Absent => Some(default),
        FieldView::Nested => None,
        FieldView::Text(t) => Some(t),
    }
}

/// The parameters that a decoded query string gives. Fields that are
/// absent take their defaults, fields that the relay does not know are
/// passed over, and a known field whose value cannot be read as its type
/// makes the request a bad one.
pub open spec fn decoded_params(nodes: Nodes) -> Result<QueryParamsView, RelayError> {
    let d = default_params();
    match (
        unsigned_field(field(nodes, "index_past"@), d.index_past),
        unsigned_field(field(nodes, "number"@), d.number),
        text_field(field(nodes, "locale"@), d.locale),
        bool_field(field(nodes, "get_image"@), d.get_image),
    ) {
        (Some(index_past), Some(number), Some(locale), Some(get_image)) => Ok(
            QueryParamsView { index_past, number, locale, get_image },
        ),
        _ => Err(RelayError::BadRequest),
    }
}

/// The parameters in a result, as verification sees them.
pub open spec fn params_result_view(r: Result<RequestQueryParams, RelayError>) -> Result<
    QueryParamsView,
    RelayError,
> {
    match r {
        Ok(p) => Ok(p@),
        Err(e) => Err(e),
    }
}

/// What a document says of one field, as the program holds it.
pub enum Field {
    /// The document has no such field.
    Absent,
    /// The field is there and is not a plain text.
    Nested,
    /// The field is there with this text.
    Text(String),
}

impl View for Field {
    type V = FieldView;

    open spec fn view(&self) -> FieldView {
        match self {
            Field::Absent => FieldView::Absent,
            Field::Nested => FieldView::Nested,
            Field::Text(t) => FieldView::Text(t@),
        }
    }
}

/// Looks up the field `key` of the root of `doc`.
pub fn read_field(doc: &serde_json::Value, key: &str) -> (r: Field)
    ensures
        r@ == field(json_nodes(*doc), key@),
{
    let ghost step = PathStep::Key(key@);
    let ghost nodes = json_nodes(*doc);
    match member(doc, key) {
        None => Field::Absent,
        Some(child) => {
            proof {
                let path = seq![step];
                assert(path.drop_first() =~= Seq::<PathStep>::empty());
                assert(path[0] == step);
                assert(descend(subtree(nodes, step), Seq::empty()) == Some(subtree(nodes, step)));
                assert(descend(nodes, path) == descend(subtree(nodes, step), path.drop_first()));
            }
            match text(child) {
                Some(t) => Field::Text(t.to_owned()),
                None => Field::Nested,
            }
        },
    }
}

fn read_unsigned(f: &Field, default: usize) -> (r: Option<usize>)
    ensures
        match r {
            Some(n) => unsigned_field(f@, default as nat) == Some(n as nat),
            None => unsigned_field(f@, default as nat) is None,
        },
{
    match f {
        Field::Absent => Some(default),
        Field::Nested => None,
        Field::Text(t) => match parse_u64(t.as_str()) {
            Some(n) => if n <= usize::MAX as u64 {
                Some(n as usize)
            } else {
                None
            },
            None => None,
        },
    }
}

impl RequestQueryParams {
    /// Reads the parameters out of a decoded query string.
    pub fn from_document(doc: &serde_json::Value) -> (r: Result<RequestQueryParams, RelayError>)
        ensures
            params_result_view(r) == decoded_params(json_nodes(*doc)),
    {
        let d = RequestQueryParams::default();
        let index_past = read_unsigned(&read_field(doc, "index_past"), d.index_past);
        let number = read_unsigned(&read_field(doc, "number"), d.number);
        let locale = match read_field(doc, "locale") {
            Field::Absent => Some(d.locale),
            Field::Nested => None,
            Field::Text(t) => Some(t),
        };
        let get_image = match read_field(doc, "get_image") {
            Field::Absent => Some(d.get_image),
            Field::Nested => None,
            Field::Text(t) => parse_bool(t.as_str()),
        };
        match (index_past, number, locale, get_image) {
            (Some(index_past), Some(number), Some(locale), Some(get_image)) => Ok(
                RequestQueryParams { index_past, number, locale, get_image },
            ),
            _ => Err(RelayError::BadRequest),
        }
    }

    /// Decodes the query string of a request. The empty query string
    /// gives the defaults.
    pub fn decode(query: &str) -> (r: Result<RequestQueryParams, RelayError>)
        ensures
            params_result_view(r) == match parsed_query(query@) {
                Some(nodes) => decoded_params(nodes),
                None => Err(RelayError::BadRequest),
            },
            query@.len() == 0 ==> params_result_view(r) == Ok::<QueryParamsView, RelayError>(
                default_params(),
            ),
    {
        proof {
            lemma_empty_object_decodes();
        }
        match parse_query(query) {
            Ok(doc) => RequestQueryParams::from_document(&doc),
            Err(_) => Err(RelayError::BadRequest),
        }
    }
}

/// The fields of a query string joined as `serde_qs` joins the entries of
/// a map: each pair as the crate writes it, with `&` between them. Nothing
/// where the crate fails on one of the pairs.
pub open spec fn joined_fields(fields: Seq<(Seq<char>, Seq<char>)>) -> Option<Seq<char>>
    decreases fields.len(),
{
    if fields.len() == 0 {
        Some(Seq::empty())
    } else {
        let last = fields.last();
        match (joined_fields(fields.drop_last()), encoded_pair(last.0, last.1)) {
            (Some(head), Some(pair)) => Some(
                if fields.len() == 1 {
                    pair
                } else {
                    head + seq!['&'] + pair
                },
            ),
            _ => None,
        }
    }
}

proof fn lemma_joined_fails_on(fields: Seq<(Seq<char>, Seq<char>)>, k: int)
    requires
        0 <= k <= fields.len(),
        joined_fields(fields.take(k)) is None,
    ensures
        joined_fields(fields) is None,
    decreases fields.len() - k,
{
    if k < fields.len() {
        assert(fields.take(k + 1).drop_last() =~= fields.take(k));
        lemma_joined_fails_on(fields, k + 1);
    } else {
        assert(fields.take(k) =~= fields);
    }
}

/// Writes `fields` as a query string, in their order.
pub fn encode_fields(fields: &Vec<(String, String)>) -> (r: Result<String, RelayError>)
    ensures
        match r {
            Ok(s) => joined_fields(pairs_view(fields@)) == Some(s@),
            Err(e) => e == RelayError::Internal && joined_fields(pairs_view(fields@)) is None,
        },
{
    let ghost all = pairs_view(fields@);
    let mut out = String::new();
    let mut i: usize = 0;
    while i < fields.len()
        invariant
            i <= fields.len(),
            all == pairs_view(fields@),
            joined_fields(all.take(i as int)) == Some(out@),
        decreases fields.len() - i,
    {
        proof {
            assert(all.take(i + 1).drop_last() =~= all.take(i as int));
            assert(all.take(i + 1).last() == (fields@[i as int].0@, fields@[i as int].1@));
        }
        match encode_pair(fields[i].0.as_str(), fields[i].1.as_str()) {
            Ok(pair) => {
                if i > 0 {
                    proof {
                        reveal_strlit("&");
                    }
                    out.append("&");
                    assert("&"@ =~= seq!['&']);
                }
                out.append(pair.as_str());
                proof {
                    if i == 0 {
                        assert(Seq::<char>::empty() + pair@ =~= pair@);
                    }
                }
            },
            Err(_) => {
                proof {
                    lemma_joined_fails_on(all, i + 1);
                }
                return Err(RelayError::Internal);
            },
        }
        i += 1;
    }
    assert(all.take(i as int) =~= all);
    Ok(out)
}

/// The fields that a request's parameters are written as.
pub open spec fn written_fields(p: QueryParamsView) -> Seq<(Seq<char>, Seq<char>)> {
    seq![
        ("index_past"@, decimal_digits(p.index_past)),
        ("number"@, decimal_digits(p.number)),
        ("locale"@, p.locale),
        ("get_image"@, bool_text(p.get_image)),
    ]
}

/// The parameters that the upstream archive endpoint takes.
#[derive(Debug, PartialEq, Eq)]
pub struct UpstreamQueryParams {
    /// The format of the answer; always `js`.
    pub format: String,
    /// How many days back the wanted image lies.
    pub idx: usize,
    /// How many images are asked for.
    pub n: usize,
    /// The locale.
    pub mkt: String,
}

/// The upstream parameters as verification sees them.
pub struct UpstreamParamsView {
    pub format: Seq<char>,
    pub idx: nat,
    pub n: nat,
    pub mkt: Seq<char>,
}

impl View for UpstreamQueryParams {
    type V = UpstreamParamsView;

    open spec fn view(&self) -> UpstreamParamsView {
        UpstreamParamsView {
            format: self.format@,
            idx: self.idx as nat,
            n: self.n as nat,
            mkt: self.mkt@,
        }
    }
}

/// The upstream parameters that forward a request's parameters.
pub open spec fn upstream_params(p: QueryParamsView) -> UpstreamParamsView {
    UpstreamParamsView { format: "js"@, idx: p.index_past, n: p.number, mkt: p.locale }
}

/// The fields that upstream parameters are written as.
pub open spec fn upstream_fields(u: UpstreamParamsView) -> Seq<(Seq<char>, Seq<char>)> {
    seq![
        ("format"@, u.format),
        ("idx"@, decimal_digits(u.idx)),
        ("n"@, decimal_digits(u.n)),
        ("mkt"@, u.mkt),
    ]
}

fn bool_to_text(b: bool) -> (r: String)
    ensures
        r@ == bool_text(b),
{
    if b {
        "true".to_owned()
    } else {
        "false".to_owned()
    }
}

impl RequestQueryParams {
    /// Writes the parameters as a query string that `decode` reads.
    pub fn to_query(&self) -> (r: Result<String, RelayError>)
        ensures
            match r {
                Ok(s) => joined_fields(written_fields(self@)) == Some(s@),
                Err(e) => e == RelayError::Internal && joined_fields(written_fields(self@))
                    is None,
            },
    {
        let mut fields: Vec<(String, String)> = Vec::new();
        fields.push(("index_past".to_owned(), to_decimal(self.index_past as u64)));
        fields.push(("number".to_owned(), to_decimal(self.number as u64)));
        fields.push(("locale".to_owned(), self.locale.clone()));
        fields.push(("get_image".to_owned(), bool_to_text(self.get_image)));
        assert(pairs_view(fields@) =~= written_fields(self@));
        encode_fields(&fields)
    }

    /// The parameters forwarded to the upstream archive endpoint.
    pub fn to_upstream(&self) -> (r: UpstreamQueryParams)
        ensures
            r@ == upstream_params(self@),
    {
        UpstreamQueryParams {
            format: "js".to_owned(),
            idx: self.index_past,
            n: self.number,
            mkt: self.locale.clone(),
        }
    }
}

impl UpstreamQueryParams {
    /// Writes the parameters as the query string of the upstream request.
    pub fn to_query(&self) -> (r: Result<String, RelayError>)
        ensures
            match r {
                Ok(s) => joined_fields(upstream_fields(self@)) == Some(s@),
                Err(e) => e == RelayError::Internal && joined_fields(upstream_fields(self@))
                    is None,
            },
    {
        let mut fields: Vec<(String, String)> = Vec::new();
        fields.push(("format".to_owned(), self.format.clone()));
        fields.push(("idx".to_owned(), to_decimal(self.idx as u64)));
        fields.push(("n".to_owned(), to_decimal(self.n as u64)));
        fields.push(("mkt".to_owned(), self.mkt.clone()));
        assert(pairs_view(fields@) =~= upstream_fields(self@));
        encode_fields(&fields)
    }
}

/// The value of the first field named `key`.
pub open spec fn lookup(fields: Seq<(Seq<char>, Seq<char>)>, key: Seq<char>) -> Option<Seq<char>>
    decreases fields.len(),
{
    if fields.len() == 0 {
        None
    } else if fields[0].0 == key {
        Some(fields[0].1)
    } else {
        lookup(fields.drop_first(), key)
    }
}

/// The nodes of the document that holds exactly `fields`: an object whose
/// members are texts.
pub open spec fn flat_nodes(fields: Seq<(Seq<char>, Seq<char>)>) -> Nodes {
    Map::new(
        |p: Seq<PathStep>|
            p.len() == 0 || (p.len() == 1 && p[0] is Key && lookup(fields, p[0]->Key_0) is Some),
        |p: Seq<PathStep>|
            if p.len() == 0 {
                None
            } else {
                lookup(fields, p[0]->Key_0)
            },
    )
}

proof fn lemma_flat_field(fields: Seq<(Seq<char>, Seq<char>)>, key: Seq<char>)
    ensures
        field(flat_nodes(fields), key) == match lookup(fields, key) {
            Some(t) => FieldView::Text(t),
            None => FieldView::Absent,
        },
{
    let nodes = flat_nodes(fields);
    let step = PathStep::Key(key);
    let path = seq![step];
    assert(path[0] == step);
    assert(path.drop_first() =~= Seq::<PathStep>::empty());
    assert(path + Seq::<PathStep>::empty() =~= path);
    assert(descend(subtree(nodes, step), Seq::empty()) == Some(subtree(nodes, step)));
    assert(descend(nodes, path) == if has_child(nodes, step) {
        descend(subtree(nodes, step), path.drop_first())
    } else {
        None
    });
}

/// Decoding the fields that parameters are written as gives the
/// parameters back.
pub proof fn lemma_written_fields_decode(p: RequestQueryParams)
    ensures
        decoded_params(flat_nodes(written_fields(p@))) == Ok::<QueryParamsView, RelayError>(p@),
{
    let fields = written_fields(p@);
    reveal_strlit("index_past");
    reveal_strlit("number");
    reveal_strlit("locale");
    reveal_strlit("get_image");
    reveal_strlit("true");
    reveal_strlit("false");
    assert("number"@[0] != "locale"@[0]);
    let f1 = fields.drop_first();
    let f2 = f1.drop_first();
    let f3 = f2.drop_first();
    assert(f1[0] == fields[1] && f2[0] == fields[2] && f3[0] == fields[3]);
    assert(lookup(fields, "index_past"@) == Some(fields[0].1));
    assert(lookup(f1, "number"@) == Some(fields[1].1));
    assert(lookup(fields, "number"@) == Some(fields[1].1));
    assert(lookup(f2, "locale"@) == Some(fields[2].1));
    assert(lookup(f1, "locale"@) == Some(fields[2].1));
    assert(lookup(fields, "locale"@) == Some(fields[2].1));
    assert(lookup(f3, "get_image"@) == Some(fields[3].1));
    assert(lookup(f2, "get_image"@) == Some(fields[3].1));
    assert(lookup(f1, "get_image"@) == Some(fields[3].1));
    assert("get_image"@.len() != "index_past"@.len());
    assert(lookup(fields, "get_image"@) == Some(fields[3].1));
    lemma_flat_field(fields, "index_past"@);
    lemma_flat_field(fields, "number"@);
    lemma_flat_field(fields, "locale"@);
    lemma_flat_field(fields, "get_image"@);
    lemma_decimal_round_trip(p@.index_past);
    lemma_decimal_round_trip(p@.number);
    assert("true"@ != "false"@) by {
        assert("true"@.len() != "false"@.len());
    }
}

/// A query string without fields asks for the defaults.
pub proof fn lemma_empty_object_decodes()
    ensures
        decoded_params(empty_object()) == Ok::<QueryParamsView, RelayError>(default_params()),
{
    assert forall|key: Seq<char>| !has_child(empty_object(), PathStep::Key(key)) by {
        assert(seq![PathStep::Key(key)].len() == 1);
    }
}

/// A field that the query string does not name takes its default: 0 for
/// `index_past`, 1 for `number`, `en-US` for `locale`, false for `get_image`.
pub proof fn lemma_absent_fields_take_defaults(nodes: Nodes)
    ensures
        decoded_params(nodes) matches Ok(p) ==> {
            &&& !has_child(nodes, PathStep::Key("index_past"@)) ==> p.index_past == 0
            &&& !has_child(nodes, PathStep::Key("number"@)) ==> p.number == 1
            &&& !has_child(nodes, PathStep::Key("locale"@)) ==> p.locale == "en-US"@
            &&& !has_child(nodes, PathStep::Key("get_image"@)) ==> p.get_image == false
        },
{
}

} // verus!
