//! OpenAPI documents as endpoint allowlists.

use vstd::prelude::*;
use serde_json::Value;
use crate::firewall::event::{event_path, ApiEvent};
use crate::firewall::rules::{rule_matches, ApiPolicyRule};
use crate::json::push_str;
use crate::text::{str_eq, string_of, to_uppercase, upper_of};

verus! {

/// One operation of a path: its key, and its `tags` when they are an
/// array (each tag its text when it is a string).
pub type Operation = (String, Option<Vec<Option<String>>>);

/// What the proxy reads of an OpenAPI document: the `info` title and
/// version when they are strings, and the entries of `paths` when it is an
/// object, each with its operations when its value is an object.
#[derive(Debug)]
pub struct OpenApiDocument {
    pub title: Option<String>,
    pub version: Option<String>,
    pub paths: Option<Vec<(String, Option<Vec<Operation>>)>>,
}

/// What `serde_json` reads of a JSON text as an OpenAPI document: the text
/// parsed into a `serde_json::Value` and read by `Index` and `as_str`,
/// `as_object`, `as_array` (`None` when the text does not parse).
pub uninterp spec fn json_openapi_document(text: Seq<char>) -> Option<OpenApiDocument>;

/// The message of the `serde_json` error for a text that does not parse.
pub uninterp spec fn json_error_text(text: Seq<char>) -> Seq<char>;

/// Parses JSON text with `serde_json::from_str` into a `serde_json::Value`
/// and reads the document off it with `Index` (`["info"]["title"]`,
/// `["paths"]`, `["tags"]`), `Value::as_str`, `as_object` and `as_array`,
/// objects walked in their map order; the parse error is rendered with its
/// `Display`. The contract claims only that the result is the named
/// function of the text.
#[verifier::external_body]
fn parse_openapi_document(text: &str) -> (r: Result<OpenApiDocument, String>)
    ensures
        r matches Ok(d) ==> json_openapi_document(text@) == Some(d),
        r matches Err(e) ==> json_openapi_document(text@) is None && e@ == json_error_text(text@),
{
    let v: Value = serde_json::from_str(text).map_err(|e| e.to_string())?;
    let s = |x: &Value| x.as_str().map(str::to_owned);
    let paths = v["paths"].as_object().map(|ps| {
        ps.iter().map(|(p, o)| (p.clone(), o.as_object().map(|ops| {
            ops.iter().map(|(m, op)| (m.clone(), op["tags"].as_array().map(|t| t.iter().map(s).collect()))).collect()
        }))).collect()
    });
    Ok(OpenApiDocument { title: s(&v["info"]["title"]), version: s(&v["info"]["version"]), paths })
}

/// A parsed OpenAPI specification: its title, version and endpoints
/// (path, uppercase method, tags).
#[derive(Debug)]
pub struct OpenApiSpec {
    pub title: String,
    pub version: String,
    pub endpoints: Vec<(String, String, Vec<String>)>,
}

/// The HTTP methods an allowlist is built from.
pub open spec fn http_verb(m: Seq<char>) -> bool {
    m == "GET"@ || m == "POST"@ || m == "PUT"@ || m == "DELETE"@ || m == "PATCH"@
}

/// An endpoint seen as plain values.
pub type EndpointView = (Seq<char>, Seq<char>, Seq<Seq<char>>);

/// The texts of the tags that are strings, in order.
pub open spec fn string_tags(t: Seq<Option<String>>) -> Seq<Seq<char>>
    decreases t.len(),
{
    if t.len() == 0 {
        Seq::empty()
    } else {
        let rest = string_tags(t.drop_last());
        match t.last() {
            Some(x) => rest.push(x@),
            None => rest,
        }
    }
}

/// An operation's tags: its string tags, none when `tags` is not an array.
pub open spec fn tag_texts(t: Option<Vec<Option<String>>>) -> Seq<Seq<char>> {
    match t {
        Some(v) => string_tags(v@),
        None => Seq::empty(),
    }
}

/// The endpoints of one path's operations, in order: each operation whose
/// uppercased key is an HTTP method.
pub open spec fn operation_endpoints(path: Seq<char>, ops: Seq<Operation>) -> Seq<EndpointView>
    decreases ops.len(),
{
    if ops.len() == 0 {
        Seq::empty()
    } else {
        let rest = operation_endpoints(path, ops.drop_last());
        let m = upper_of(ops.last().0@);
        if http_verb(m) { rest.push((path, m, tag_texts(ops.last().1))) } else { rest }
    }
}

/// The endpoints of a document's paths, in order.
pub open spec fn document_endpoints(paths: Seq<(String, Option<Vec<Operation>>)>) -> Seq<EndpointView>
    decreases paths.len(),
{
    if paths.len() == 0 {
        Seq::empty()
    } else {
        let rest = document_endpoints(paths.drop_last());
        match paths.last().1 {
            Some(ops) => rest + operation_endpoints(paths.last().0@, ops@),
            None => rest,
        }
    }
}

/// The endpoints of a document: none when its `paths` is not an object.
pub open spec fn doc_endpoints(doc: OpenApiDocument) -> Seq<EndpointView> {
    match doc.paths {
        Some(ps) => document_endpoints(ps@),
        None => Seq::empty(),
    }
}

pub open spec fn endpoint_views(e: Seq<(String, String, Vec<String>)>) -> Seq<EndpointView> {
    Seq::new(e.len(), |i: int| (e[i].0@, e[i].1@, texts_of(e[i].2@)))
}

/// `s` without repeats, each kept where it first occurs.
pub open spec fn distinct(s: Seq<Seq<char>>) -> Seq<Seq<char>>
    decreases s.len(),
{
    if s.len() == 0 {
        Seq::empty()
    } else {
        let rest = distinct(s.drop_last());
        if rest.contains(s.last()) { rest } else { rest.push(s.last()) }
    }
}

pub open spec fn texts_of(v: Seq<String>) -> Seq<Seq<char>> {
    Seq::new(v.len(), |i: int| v[i]@)
}

fn is_http_verb(m: &str) -> (r: bool)
    ensures
        r == http_verb(m@),
{
    str_eq(m, "GET") || str_eq(m, "POST") || str_eq(m, "PUT") || str_eq(m, "DELETE") || str_eq(m, "PATCH")
}

/// The string tags of an operation.
fn tags_of(t: &Option<Vec<Option<String>>>) -> (r: Vec<String>)
    ensures
        texts_of(r@) == tag_texts(*t),
{
    let mut r: Vec<String> = Vec::new();
    match t {
        Some(v) => {
            let mut i: usize = 0;
            while i < v.len()
                invariant
                    i <= v@.len(),
                    texts_of(r@) == string_tags(v@.take(i as int)),
                decreases v.len() - i,
            {
                assert(v@.take(i + 1).drop_last() =~= v@.take(i as int));
                assert(v@.take(i + 1).last() == v@[i as int]);
                match &v[i] {
                    Some(x) => {
                        r.push(x.clone());
                        assert(texts_of(r@) =~= string_tags(v@.take(i as int)).push(x@));
                    },
                    None => {},
                }
                i = i + 1;
            }
            assert(v@.take(v@.len() as int) =~= v@);
        },
        None => {
            assert(texts_of(r@) =~= Seq::<Seq<char>>::empty());
        },
    }
    r
}

fn push_operations(out: &mut Vec<(String, String, Vec<String>)>, path: &String, ops: &Vec<Operation>)
    ensures
        endpoint_views(final(out)@) == endpoint_views(old(out)@) + operation_endpoints(path@, ops@),
{
    let ghost start = endpoint_views(out@);
    let mut i: usize = 0;
    while i < ops.len()
        invariant
            i <= ops@.len(),
            endpoint_views(out@) == start + operation_endpoints(path@, ops@.take(i as int)),
        decreases ops.len() - i,
    {
        assert(ops@.take(i + 1).drop_last() =~= ops@.take(i as int));
        assert(ops@.take(i + 1).last() == ops@[i as int]);
        let m = to_uppercase(ops[i].0.as_str());
        if is_http_verb(m.as_str()) {
            let ghost before = endpoint_views(out@);
            out.push((path.clone(), m, tags_of(&ops[i].1)));
            assert(endpoint_views(out@) =~= before.push((path@, upper_of(ops@[i as int].0@), tag_texts(ops@[i as int].1))));
        }
        i = i + 1;
    }
    assert(ops@.take(ops@.len() as int) =~= ops@);
}

fn contains_text(v: &Vec<String>, s: &String) -> (r: bool)
    ensures
        r == texts_of(v@).contains(s@),
{
    let mut i: usize = 0;
    while i < v.len()
        invariant
            i <= v@.len(),
            forall|k: int| 0 <= k < i ==> v@[k]@ != s@,
        decreases v.len() - i,
    {
        if str_eq(v[i].as_str(), s.as_str()) {
            assert(texts_of(v@)[i as int] == s@);
            return true;
        }
        i = i + 1;
    }
    assert(!texts_of(v@).contains(s@)) by {
        if texts_of(v@).contains(s@) {
            let k = choose|k: int| 0 <= k < texts_of(v@).len() && texts_of(v@)[k] == s@;
            assert(v@[k]@ == s@);
        }
    }
    false
}

impl OpenApiSpec {
    /// The specification a document describes: the title defaults to
    /// `Unknown`, the version to `0.0.0`, and the endpoints are the
    /// document's operations whose uppercased key is GET, POST, PUT,
    /// DELETE or PATCH, in document order.
    pub fn from_document(doc: &OpenApiDocument) -> (s: Self)
        ensures
            s.title@ == (match doc.title { Some(t) => t@, None => "Unknown"@ }),
            s.version@ == (match doc.version { Some(v) => v@, None => "0.0.0"@ }),
            endpoint_views(s.endpoints@) == doc_endpoints(*doc),
    {
        let title = match &doc.title {
            Some(t) => t.clone(),
            None => "Unknown".to_owned(),
        };
        let version = match &doc.version {
            Some(v) => v.clone(),
            None => "0.0.0".to_owned(),
        };
        let mut endpoints: Vec<(String, String, Vec<String>)> = Vec::new();
        assert(endpoint_views(endpoints@) =~= Seq::<EndpointView>::empty());
        match &doc.paths {
            Some(paths) => {
                let mut i: usize = 0;
                while i < paths.len()
                    invariant
                        i <= paths@.len(),
                        endpoint_views(endpoints@) == document_endpoints(paths@.take(i as int)),
                    decreases paths.len() - i,
                {
                    assert(paths@.take(i + 1).drop_last() =~= paths@.take(i as int));
                    assert(paths@.take(i + 1).last() == paths@[i as int]);
                    match &paths[i].1 {
                        Some(ops) => push_operations(&mut endpoints, &paths[i].0, ops),
                        None => {},
                    }
                    i = i + 1;
                }
                assert(paths@.take(paths@.len() as int) =~= paths@);
            },
            None => {},
        }
        OpenApiSpec { title, version, endpoints }
    }

    /// Parses an OpenAPI document given as JSON text: text that does not
    /// parse is refused with `Invalid JSON: ` and the parser's message;
    /// otherwise the specification is the one the document describes (see
    /// `from_document`).
    pub fn from_json(json: &str) -> (r: Result<OpenApiSpec, String>)
        ensures
            r matches Ok(s) ==> json_openapi_document(json@) matches Some(d) && {
                &&& s.title@ == (match d.title { Some(t) => t@, None => "Unknown"@ })
                &&& s.version@ == (match d.version { Some(v) => v@, None => "0.0.0"@ })
                &&& endpoint_views(s.endpoints@) == doc_endpoints(d)
            },
            r matches Err(e) ==> json_openapi_document(json@) is None && e@ == "Invalid JSON: "@ + json_error_text(json@),
            r is Err <==> json_openapi_document(json@) is None,
    {
        match parse_openapi_document(json) {
            Ok(doc) => Ok(Self::from_document(&doc)),
            Err(e) => {
                let mut v: Vec<char> = Vec::new();
                push_str(&mut v, "Invalid JSON: ");
                push_str(&mut v, e.as_str());
                Err(string_of(&v))
            },
        }
    }

    pub fn title(&self) -> (t: &str)
        ensures
            t@ == self.title@,
    {
        self.title.as_str()
    }

    pub fn version(&self) -> (v: &str)
        ensures
            v@ == self.version@,
    {
        self.version.as_str()
    }

    /// The (path, method) pairs of the endpoints, in order.
    pub fn endpoint_allowlist(&self) -> (r: Vec<(String, String)>)
        ensures
            r@.len() == self.endpoints@.len(),
            forall|i: int| 0 <= i < r@.len() ==> #[trigger] r@[i] == (self.endpoints@[i].0, self.endpoints@[i].1),
    {
        let mut r: Vec<(String, String)> = Vec::new();
        let mut i: usize = 0;
        while i < self.endpoints.len()
            invariant
                i <= self.endpoints@.len(),
                r@.len() == i,
                forall|k: int| 0 <= k < i ==> #[trigger] r@[k] == (self.endpoints@[k].0, self.endpoints@[k].1),
            decreases self.endpoints.len() - i,
        {
            r.push((self.endpoints[i].0.clone(), self.endpoints[i].1.clone()));
            i = i + 1;
        }
        r
    }

    /// An allowlist rule admitting exactly the paths and the methods of the
    /// endpoints, each listed once, in order of first appearance.
    pub fn to_allowlist_rule(&self) -> (rule: ApiPolicyRule)
        ensures
            rule matches ApiPolicyRule::EndpointAllowlist { paths, methods }
                && texts_of(paths@) == distinct(Seq::new(self.endpoints@.len(), |i: int| self.endpoints@[i].0@))
                && texts_of(methods@) == distinct(Seq::new(self.endpoints@.len(), |i: int| self.endpoints@[i].1@)),
    {
        let ghost ps = Seq::new(self.endpoints@.len(), |i: int| self.endpoints@[i].0@);
        let ghost ms = Seq::new(self.endpoints@.len(), |i: int| self.endpoints@[i].1@);
        let mut paths: Vec<String> = Vec::new();
        let mut methods: Vec<String> = Vec::new();
        let mut i: usize = 0;
        while i < self.endpoints.len()
            invariant
                i <= self.endpoints@.len(),
                ps == Seq::new(self.endpoints@.len(), |i: int| self.endpoints@[i].0@),
                ms == Seq::new(self.endpoints@.len(), |i: int| self.endpoints@[i].1@),
                texts_of(paths@) == distinct(ps.take(i as int)),
                texts_of(methods@) == distinct(ms.take(i as int)),
            decreases self.endpoints.len() - i,
        {
            assert(ps.take(i + 1).drop_last() =~= ps.take(i as int));
            assert(ms.take(i + 1).drop_last() =~= ms.take(i as int));
            let (p, m, _) = &self.endpoints[i];
            if !contains_text(&paths, p) {
                paths.push(p.clone());
                assert(texts_of(paths@) =~= distinct(ps.take(i as int)).push(p@));
            }
            if !contains_text(&methods, m) {
                methods.push(m.clone());
                assert(texts_of(methods@) =~= distinct(ms.take(i as int)).push(m@));
            }
            i = i + 1;
        }
        assert(ps.take(ps.len() as int) =~= ps);
        assert(ms.take(ms.len() as int) =~= ms);
        ApiPolicyRule::EndpointAllowlist { paths, methods }
    }
}

proof fn lemma_distinct_contains(s: Seq<Seq<char>>, k: int)
    requires
        0 <= k < s.len(),
    ensures
        distinct(s).contains(s[k]),
    decreases s.len(),
{
    let rest = distinct(s.drop_last());
    if k < s.len() - 1 {
        lemma_distinct_contains(s.drop_last(), k);
        assert(s.drop_last()[k] == s[k]);
        if !rest.contains(s.last()) {
            let j = choose|j: int| 0 <= j < rest.len() && rest[j] == s[k];
            assert(rest.push(s.last())[j] == s[k]);
        }
    } else {
        if !rest.contains(s.last()) {
            assert(rest.push(s.last())[rest.len() as int] == s.last());
        }
    }
}

/// Every endpoint of a specification passes the allowlist rule built from
/// it (`to_allowlist_rule`): a call whose path and uppercased method are
/// those of one of the endpoints that `endpoint_allowlist` lists is not
/// blocked by the rule, at any hour.
pub proof fn lemma_listed_endpoints_pass(spec: OpenApiSpec, rule: ApiPolicyRule, e: ApiEvent, hour: u8, k: int)
    requires
        rule matches ApiPolicyRule::EndpointAllowlist { paths, methods }
            && texts_of(paths@) == distinct(Seq::new(spec.endpoints@.len(), |i: int| spec.endpoints@[i].0@))
            && texts_of(methods@) == distinct(Seq::new(spec.endpoints@.len(), |i: int| spec.endpoints@[i].1@)),
        0 <= k < spec.endpoints@.len(),
        event_path(e) == spec.endpoints@[k].0@,
        upper_of(e.method@) == spec.endpoints@[k].1@,
    ensures
        !rule_matches(rule, e, hour),
{
    let ps = Seq::new(spec.endpoints@.len(), |i: int| spec.endpoints@[i].0@);
    let ms = Seq::new(spec.endpoints@.len(), |i: int| spec.endpoints@[i].1@);
    lemma_distinct_contains(ps, k);
    lemma_distinct_contains(ms, k);
    match rule {
        ApiPolicyRule::EndpointAllowlist { paths, methods } => {
            let a = choose|j: int| 0 <= j < distinct(ps).len() && distinct(ps)[j] == ps[k];
            assert(texts_of(paths@)[a] == paths@[a]@);
            let b = choose|j: int| 0 <= j < distinct(ms).len() && distinct(ms)[j] == ms[k];
            assert(texts_of(methods@)[b] == methods@[b]@);
        },
        _ => {},
    }
}

} // verus!
