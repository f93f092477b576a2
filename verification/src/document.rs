//! Documents read through `serde_json` and `serde_qs`.
//!
//! A document is kept as a `serde_json::Value`. Verification sees it as the
//! map of its nodes: every path that leads from the root to a value, with
//! the text of that value where it is a string. The functions of the two
//! crates are called through the wrappers below, whose contracts are taken
//! on trust; everything else in this module is proved from them.

use vstd::prelude::*;

verus! {

#[verifier::external_type_specification]
#[verifier::external_body]
pub struct ExJsonValue(serde_json::Value);

#[verifier::external_type_specification]
#[verifier::external_body]
pub struct ExJsonError(serde_json::Error);

#[verifier::external_type_specification]
#[verifier::external_body]
pub struct ExQueryError(serde_qs::Error);

/// One step down a document: into the member of an object, or to the
/// element of an array.
pub enum PathStep {
    Key(Seq<char>),
    Index(nat),
}

/// The nodes of a document by their paths, each with its text if it is a string.
pub type Nodes = Map<Seq<PathStep>, Option<Seq<char>>>;

/// The nodes of a document held as a `serde_json::Value`. The root has the
/// empty path; the member `k` of an object at path `p` has the path `p`
/// followed by `Key(k)`, the element `i` of an array at `p` the path `p`
/// followed by `Index(i)`.
pub uninterp spec fn json_nodes(v: serde_json::Value) -> Map<Seq<PathStep>, Option<Seq<char>>>;

/// What `serde_json::from_slice` makes of a body: the nodes of the document,
/// or nothing where the body is not one JSON document.
pub uninterp spec fn parsed_json(body: Seq<u8>) -> Option<Map<Seq<PathStep>, Option<Seq<char>>>>;

/// What `serde_qs::from_str` makes of a query string read as a map of
/// documents: the nodes of the object that holds the map's entries, or
/// nothing where the crate rejects the string.
pub uninterp spec fn parsed_query(query: Seq<char>) -> Option<
    Map<Seq<PathStep>, Option<Seq<char>>>,
>;

/// What `serde_qs::to_string` writes for a map with the one entry
/// `key` to `value`, or nothing where it fails.
pub uninterp spec fn encoded_pair(key: Seq<char>, value: Seq<char>) -> Option<Seq<char>>;

/// The nodes of an object without members: the root alone, which is no text.
pub open spec fn empty_object() -> Nodes {
    Map::empty().insert(Seq::empty(), None)
}

/// `nodes` has a node one `step` below its root.
pub open spec fn has_child(nodes: Nodes, step: PathStep) -> bool {
    nodes.contains_key(seq![step])
}

/// The nodes below the child at `step`, with paths that start at that child.
pub open spec fn subtree(nodes: Nodes, step: PathStep) -> Nodes {
    Map::new(
        |p: Seq<PathStep>| nodes.contains_key(seq![step] + p),
        |p: Seq<PathStep>| nodes[seq![step] + p],
    )
}

/// The text of the root, if the root is a string.
pub open spec fn root_text(nodes: Nodes) -> Option<Seq<char>> {
    if nodes.contains_key(Seq::empty()) {
        nodes[Seq::empty()]
    } else {
        None
    }
}

/// The nodes below the one that `path` leads to, if each step of the path
/// finds a child.
pub open spec fn descend(nodes: Nodes, path: Seq<PathStep>) -> Option<Nodes>
    decreases path.len(),
{
    if path.len() == 0 {
        Some(nodes)
    } else if has_child(nodes, path[0]) {
        descend(subtree(nodes, path[0]), path.drop_first())
    } else {
        None
    }
}

/// The text that `path` leads to: none where a step finds no child, or
/// where the value at the end is not a string.
pub open spec fn text_at_path(nodes: Nodes, path: Seq<PathStep>) -> Option<Seq<char>> {
    match descend(nodes, path) {
        Some(below) => root_text(below),
        None => None,
    }
}

/// A step of a path, as the program holds it.
pub enum Step {
    Key(String),
    Index(usize),
}

impl View for Step {
    type V = PathStep;

    open spec fn view(&self) -> PathStep {
        match self {
            Step::Key(k) => PathStep::Key(k@),
            Step::Index(i) => PathStep::Index(*i as nat),
        }
    }
}

/// The steps of a path as verification sees them.
pub open spec fn path_view(path: Seq<Step>) -> Seq<PathStep> {
    path.map_values(|s: Step| s@)
}

/// Calls `serde_json::from_slice` for a `Value`. Trusted: the result is a
/// function of the bytes alone, and the document that comes back has the
/// nodes that `parsed_json` names.
#[verifier::external_body]
pub(crate) fn parse_json(body: &[u8]) -> (r: Result<serde_json::Value, serde_json::Error>)
    ensures
        match r {
            Ok(v) => parsed_json(body@) == Some(json_nodes(v)),
            Err(_) => parsed_json(body@) is None,
        },
{
    serde_json::from_slice(body)
}

/// Calls `serde_qs::from_str` for a map from field names to documents and
/// wraps the map as a JSON object. Trusted: the result is a function of the
/// query string alone, and the object has the nodes that `parsed_query`
/// names; the empty query string gives the map without entries.
#[verifier::external_body]
pub(crate) fn parse_query(query: &str) -> (r: Result<serde_json::Value, serde_qs::Error>)
    ensures
        match r {
            Ok(v) => parsed_query(query@) == Some(json_nodes(v)),
            Err(_) => parsed_query(query@) is None,
        },
        query@.len() == 0 ==> r is Ok,
        query@.len() == 0 && r is Ok ==> json_nodes(r->Ok_0) == empty_object(),
{
    let fields: serde_json::Map<String, serde_json::Value> = serde_qs::from_str(query)?;
    Ok(serde_json::Value::Object(fields))
}

/// Calls `serde_qs::to_string` on a map with the one entry `key` to
/// `value`. Trusted: the result is a function of the two texts alone.
#[verifier::external_body]
pub(crate) fn encode_pair(key: &str, value: &str) -> (r: Result<String, serde_qs::Error>)
    ensures
        match r {
            Ok(s) => encoded_pair(key@, value@) == Some(s@),
            Err(_) => encoded_pair(key@, value@) is None,
        },
{
    let mut entry: std::collections::BTreeMap<&str, &str> = std::collections::BTreeMap::new();
    entry.insert(key, value);
    serde_qs::to_string(&entry)
}

/// Calls `serde_json::Value::get` with a string. Trusted: it returns the
/// member `key` where the value is an object that has one, and the nodes of
/// that member are the nodes below `Key(key)`; otherwise it returns nothing.
#[verifier::external_body]
pub(crate) fn member<'a>(v: &'a serde_json::Value, key: &str) -> (r: Option<&'a serde_json::Value>)
    ensures
        match r {
            Some(c) => has_child(json_nodes(*v), PathStep::Key(key@)) && json_nodes(*c) == subtree(
                json_nodes(*v),
                PathStep::Key(key@),
            ),
            None => !has_child(json_nodes(*v), PathStep::Key(key@)),
        },
{
    v.get(key)
}

/// Calls `serde_json::Value::get` with a position. Trusted: it returns the
/// element at `index` where the value is an array that long, and the nodes
/// of that element are the nodes below `Index(index)`; otherwise nothing.
#[verifier::external_body]
pub(crate) fn element<'a>(v: &'a serde_json::Value, index: usize) -> (r: Option<
    &'a serde_json::Value,
>)
    ensures
        match r {
            Some(c) => has_child(json_nodes(*v), PathStep::Index(index as nat)) && json_nodes(*c)
                == subtree(json_nodes(*v), PathStep::Index(index as nat)),
            None => !has_child(json_nodes(*v), PathStep::Index(index as nat)),
        },
{
    v.get(index)
}

/// Calls `serde_json::Value::as_str`. Trusted: it returns the text of the
/// value where the value is a string, and nothing otherwise.
#[verifier::external_body]
pub(crate) fn text<'a>(v: &'a serde_json::Value) -> (r: Option<&'a str>)
    ensures
        match r {
            Some(s) => root_text(json_nodes(*v)) == Some(s@),
            None => root_text(json_nodes(*v)) is None,
        },
{
    v.as_str()
}

/// Follows `path` from the root of `doc` and returns the text found at its end.
pub fn text_at(doc: &serde_json::Value, path: &Vec<Step>) -> (r: Option<String>)
    ensures
        match r {
            Some(s) => text_at_path(json_nodes(*doc), path_view(path@)) == Some(s@),
            None => text_at_path(json_nodes(*doc), path_view(path@)) is None,
        },
{
    let ghost steps = path_view(path@);
    let mut cur: &serde_json::Value = doc;
    let mut i: usize = 0;
    assert(steps.skip(0) =~= steps);
    while i < path.len()
        invariant
            i <= path.len(),
            steps == path_view(path@),
            text_at_path(json_nodes(*doc), steps) == text_at_path(
                json_nodes(*cur),
                steps.skip(i as int),
            ),
        decreases path.len() - i,
    {
        let ghost rest = steps.skip(i as int);
        assert(rest[0] == path@[i as int]@);
        assert(rest.drop_first() =~= steps.skip(i + 1));
        let next = match &path[i] {
            Step::Key(k) => member(cur, k.as_str()),
            Step::Index(n) => element(cur, *n),
        };
        match next {
            Some(c) => {
                cur = c;
            },
            None => {
                return None;
            },
        }
        i += 1;
    }
    assert(steps.skip(i as int).len() == 0);
    match text(cur) {
        Some(s) => Some(s.to_owned()),
        None => None,
    }
}

} // verus!
