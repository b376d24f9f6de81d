//! The store catalog: what the daemon reads of it, and when a downloaded
//! catalog replaces the cached one.

use vstd::prelude::*;
use crate::text::str_eq;

verus! {

/// One entry of a catalog section, holding the fields the daemon reads.
/// A field is `None` where the entry lacks it or it is not of the expected
/// JSON type; list elements that are not strings are `None`.
pub struct CatalogItem {
    pub id: Option<String>,
    pub name: Option<String>,
    pub version: Option<String>,
    pub coin: Option<String>,
    pub hardware: Option<Vec<Option<String>>>,
    pub coins: Option<Vec<Option<String>>>,
}

/// The store catalog. A section is `None` where the catalog lacks it or it
/// is not a JSON array.
pub struct Catalog {
    pub miners: Option<Vec<CatalogItem>>,
    pub wallets: Option<Vec<CatalogItem>>,
    pub pools: Option<Vec<CatalogItem>>,
}

/// The catalog used when none can be read: every section present and empty.
pub fn empty_catalog() -> (c: Catalog)
    ensures
        c.miners matches Some(m) && m@.len() == 0,
        c.wallets matches Some(w) && w@.len() == 0,
        c.pools matches Some(p) && p@.len() == 0,
{
    Catalog { miners: Some(Vec::new()), wallets: Some(Vec::new()), pools: Some(Vec::new()) }
}

/// The catalog the daemon uses: the cached one where it could be read, else
/// the bundled one, else an empty one.
pub fn choose_catalog(cached: Option<Catalog>, bundled: Option<Catalog>) -> (c: Catalog)
    ensures
        cached matches Some(x) ==> c == x,
        cached is None ==> (bundled matches Some(y) ==> c == y),
        cached is None && bundled is None ==> ({
            &&& c.miners matches Some(m)
            &&& m@.len() == 0
            &&& c.wallets matches Some(w)
            &&& w@.len() == 0
            &&& c.pools matches Some(p)
            &&& p@.len() == 0
        }),
{
    match cached {
        Some(x) => x,
        None => match bundled {
            Some(y) => y,
            None => empty_catalog(),
        },
    }
}

/// A JSON value as `serde_json` reads it. A number is kept as its decimal
/// text; an object's members are kept in the order `serde_json` gives them.
pub enum Json {
    Null,
    Bool(bool),
    Number(String),
    Str(String),
    Array(Vec<Json>),
    Object(Vec<(String, Json)>),
}

/// The mathematical form of a JSON value.
pub enum JsonView {
    Null,
    Bool(bool),
    Number(Seq<char>),
    Str(Seq<char>),
    Array(Seq<JsonView>),
    Object(Seq<(Seq<char>, JsonView)>),
}

/// The view of a JSON value.
pub open spec fn json_view(j: Json) -> JsonView
    decreases j,
{
    match j {
        Json::Null => JsonView::Null,
        Json::Bool(b) => JsonView::Bool(b),
        Json::Number(n) => JsonView::Number(n@),
        Json::Str(s) => JsonView::Str(s@),
        Json::Array(xs) => JsonView::Array(
            Seq::new(
                xs@.len(),
                |i: int|
                    if 0 <= i < xs@.len() {
                        proof {
                            assert(decreases_to!(xs => xs[i]));
                        }
                        json_view(xs@[i])
                    } else {
                        JsonView::Null
                    },
            ),
        ),
        Json::Object(fs) => JsonView::Object(
            Seq::new(
                fs@.len(),
                |i: int|
                    if 0 <= i < fs@.len() {
                        proof {
                            assert(decreases_to!(fs => fs[i]));
                        }
                        (fs@[i].0@, json_view(fs@[i].1))
                    } else {
                        (Seq::<char>::empty(), JsonView::Null)
                    },
            ),
        ),
    }
}

/// What `serde_json::from_str::<serde_json::Value>` reads from `text`:
/// `None` where it reports an error.
pub uninterp spec fn json_model(text: Seq<char>) -> Option<JsonView>;

/// Whether `serde_json` parses `text` as one JSON value.
pub open spec fn json_accepts(text: Seq<char>) -> bool {
    json_model(text) is Some
}

/// `serde_json::Value`, carried through the conversion below.
#[verifier::external_type_specification]
#[verifier::external_body]
pub struct ExJsonValue(serde_json::Value);

/// Turns a `serde_json::Value` into a `Json`, variant for variant (a number
/// by its `to_string` text, an object's members in the map's order). Used by
/// `parse_json` alone, whose contract covers it.
#[verifier::external_body]
fn json_of(v: serde_json::Value) -> Json {
    match v {
        serde_json::Value::Null => Json::Null,
        serde_json::Value::Bool(b) => Json::Bool(b),
        serde_json::Value::Number(n) => Json::Number(n.to_string()),
        serde_json::Value::String(s) => Json::Str(s),
        serde_json::Value::Array(a) => Json::Array(a.into_iter().map(json_of).collect()),
        serde_json::Value::Object(o) => Json::Object(o.into_iter().map(|(k, x)| (k, json_of(x))).collect()),
    }
}

/// Calls `serde_json::from_str::<serde_json::Value>` on `text`. The contract
/// claims that it fails exactly where `json_model(text)` is `None`, and that
/// otherwise the value it gives, converted, has the view `json_model(text)`:
/// the parse is a function of the text alone.
#[verifier::external_body]
fn parse_json(text: &str) -> (r: Option<Json>)
    ensures
        r is Some <==> json_model(text@) is Some,
        r matches Some(v) ==> json_model(text@) == Some(json_view(v)),
{
    serde_json::from_str::<serde_json::Value>(text).ok().map(json_of)
}

/// A catalog entry's fields, as values.
pub struct CatalogItemView {
    pub id: Option<Seq<char>>,
    pub name: Option<Seq<char>>,
    pub version: Option<Seq<char>>,
    pub coin: Option<Seq<char>>,
    pub hardware: Option<Seq<Option<Seq<char>>>>,
    pub coins: Option<Seq<Option<Seq<char>>>>,
}

/// A catalog's sections, as values.
pub struct CatalogView {
    pub miners: Option<Seq<CatalogItemView>>,
    pub wallets: Option<Seq<CatalogItemView>>,
    pub pools: Option<Seq<CatalogItemView>>,
}

/// The view of an optional text.
pub open spec fn opt_text(o: Option<String>) -> Option<Seq<char>> {
    match o {
        Some(s) => Some(s@),
        None => None,
    }
}

/// The view of an optional list of optional texts.
pub open spec fn opt_texts(o: Option<Vec<Option<String>>>) -> Option<Seq<Option<Seq<char>>>> {
    match o {
        Some(v) => Some(v@.map_values(|x: Option<String>| opt_text(x))),
        None => None,
    }
}

/// The view of a catalog entry.
pub open spec fn item_view(i: CatalogItem) -> CatalogItemView {
    CatalogItemView {
        id: opt_text(i.id),
        name: opt_text(i.name),
        version: opt_text(i.version),
        coin: opt_text(i.coin),
        hardware: opt_texts(i.hardware),
        coins: opt_texts(i.coins),
    }
}

/// The view of a catalog section.
pub open spec fn section_view(s: Option<Vec<CatalogItem>>) -> Option<Seq<CatalogItemView>> {
    match s {
        Some(v) => Some(v@.map_values(|x: CatalogItem| item_view(x))),
        None => None,
    }
}

/// The view of a catalog.
pub open spec fn catalog_view(c: Catalog) -> CatalogView {
    CatalogView { miners: section_view(c.miners), wallets: section_view(c.wallets), pools: section_view(c.pools) }
}

/// The value of the first member of `fs` named `key`, if any.
pub open spec fn member_of(fs: Seq<(Seq<char>, JsonView)>, key: Seq<char>) -> Option<JsonView>
    decreases fs.len(),
{
    if fs.len() == 0 {
        None
    } else if fs[0].0 == key {
        Some(fs[0].1)
    } else {
        member_of(fs.drop_first(), key)
    }
}

/// The member `key` of `v`, where `v` is an object that has one.
pub open spec fn member(v: JsonView, key: Seq<char>) -> Option<JsonView> {
    match v {
        JsonView::Object(fs) => member_of(fs, key),
        _ => None,
    }
}

/// The text of `v`, where it is a string.
pub open spec fn json_text(v: JsonView) -> Option<Seq<char>> {
    match v {
        JsonView::Str(s) => Some(s),
        _ => None,
    }
}

/// The member `key` of `v`, where it is a string.
pub open spec fn text_member(v: JsonView, key: Seq<char>) -> Option<Seq<char>> {
    match member(v, key) {
        Some(x) => json_text(x),
        None => None,
    }
}

/// The member `key` of `v`, where it is an array: each element's text, or
/// `None` for an element that is not a string.
pub open spec fn list_member(v: JsonView, key: Seq<char>) -> Option<Seq<Option<Seq<char>>>> {
    match member(v, key) {
        Some(JsonView::Array(xs)) => Some(xs.map_values(|x: JsonView| json_text(x))),
        _ => None,
    }
}

/// The catalog entry that `v` describes.
pub open spec fn item_model(v: JsonView) -> CatalogItemView {
    CatalogItemView {
        id: text_member(v, "id"@),
        name: text_member(v, "name"@),
        version: text_member(v, "version"@),
        coin: text_member(v, "coin"@),
        hardware: list_member(v, "hardware"@),
        coins: list_member(v, "coins"@),
    }
}

/// The section `key` of the catalog `v`, where it is an array.
pub open spec fn section_model(v: JsonView, key: Seq<char>) -> Option<Seq<CatalogItemView>> {
    match member(v, key) {
        Some(JsonView::Array(xs)) => Some(xs.map_values(|x: JsonView| item_model(x))),
        _ => None,
    }
}

/// The catalog that the JSON value `v` describes.
pub open spec fn catalog_model(v: JsonView) -> CatalogView {
    CatalogView {
        miners: section_model(v, "miners"@),
        wallets: section_model(v, "wallets"@),
        pools: section_model(v, "pools"@),
    }
}

/// The member `key` of an object's members `fs`.
fn find_member<'a>(fs: &'a Vec<(String, Json)>, key: &str) -> (r: Option<&'a Json>)
    ensures
        r is None ==> member(json_view(Json::Object(*fs)), key@) is None,
        r matches Some(x) ==> member(json_view(Json::Object(*fs)), key@) == Some(json_view(*x)),
{
    let ghost whole = json_view(Json::Object(*fs));
    let ghost ms = whole->Object_0;
    let mut i: usize = 0;
    assert(ms.skip(0) =~= ms);
    while i < fs.len()
        invariant
            i <= fs@.len(),
            whole == json_view(Json::Object(*fs)),
            ms == whole->Object_0,
            ms.len() == fs@.len(),
            member_of(ms, key@) == member_of(ms.skip(i as int), key@),
        decreases fs@.len() - i,
    {
        assert(ms[i as int] == (fs@[i as int].0@, json_view(fs@[i as int].1)));
        assert(ms.skip(i as int)[0] == ms[i as int]);
        if str_eq(fs[i].0.as_str(), key) {
            return Some(&fs[i].1);
        }
        assert(ms.skip(i as int).drop_first() =~= ms.skip(i + 1));
        i += 1;
    }
    assert(ms.skip(i as int).len() == 0);
    None
}

/// The member `key` of `v`, where `v` is an object that has one.
fn get_member<'a>(v: &'a Json, key: &str) -> (r: Option<&'a Json>)
    ensures
        r is None ==> member(json_view(*v), key@) is None,
        r matches Some(x) ==> member(json_view(*v), key@) == Some(json_view(*x)),
{
    match v {
        Json::Object(fs) => find_member(fs, key),
        _ => None,
    }
}

/// The member `key` of `v`, where it is a string.
fn text_of(v: &Json, key: &str) -> (r: Option<String>)
    ensures
        opt_text(r) == text_member(json_view(*v), key@),
{
    match get_member(v, key) {
        Some(Json::Str(s)) => Some(s.clone()),
        _ => None,
    }
}

/// The member `key` of `v`, where it is an array, with each element's text.
fn list_of(v: &Json, key: &str) -> (r: Option<Vec<Option<String>>>)
    ensures
        opt_texts(r) == list_member(json_view(*v), key@),
{
    match get_member(v, key) {
        Some(Json::Array(xs)) => {
            let ghost xv = json_view(Json::Array(*xs))->Array_0;
            let mut out: Vec<Option<String>> = Vec::new();
            let mut i: usize = 0;
            while i < xs.len()
                invariant
                    i <= xs@.len(),
                    xv == json_view(Json::Array(*xs))->Array_0,
                    xv.len() == xs@.len(),
                    out@.len() == i,
                    forall|j: int| 0 <= j < i ==> opt_text(#[trigger] out@[j]) == json_text(xv[j]),
                decreases xs@.len() - i,
            {
                assert(xv[i as int] == json_view(xs@[i as int]));
                let t = match &xs[i] {
                    Json::Str(s) => Some(s.clone()),
                    _ => None,
                };
                assert(opt_text(t) == json_text(xv[i as int]));
                out.push(t);
                i += 1;
            }
            assert(out@.map_values(|x: Option<String>| opt_text(x)) =~= xv.map_values(|x: JsonView| json_text(x)));
            Some(out)
        },
        _ => None,
    }
}

/// The catalog entry that `v` describes.
fn item_of(v: &Json) -> (r: CatalogItem)
    ensures
        item_view(r) == item_model(json_view(*v)),
{
    CatalogItem {
        id: text_of(v, "id"),
        name: text_of(v, "name"),
        version: text_of(v, "version"),
        coin: text_of(v, "coin"),
        hardware: list_of(v, "hardware"),
        coins: list_of(v, "coins"),
    }
}

/// The section `key` of the catalog `v`, where it is an array.
fn section_of(v: &Json, key: &str) -> (r: Option<Vec<CatalogItem>>)
    ensures
        section_view(r) == section_model(json_view(*v), key@),
{
    match get_member(v, key) {
        Some(Json::Array(xs)) => {
            let ghost xv = json_view(Json::Array(*xs))->Array_0;
            let mut out: Vec<CatalogItem> = Vec::new();
            let mut i: usize = 0;
            while i < xs.len()
                invariant
                    i <= xs@.len(),
                    xv == json_view(Json::Array(*xs))->Array_0,
                    xv.len() == xs@.len(),
                    out@.len() == i,
                    forall|j: int| 0 <= j < i ==> item_view(#[trigger] out@[j]) == item_model(xv[j]),
                decreases xs@.len() - i,
            {
                assert(xv[i as int] == json_view(xs@[i as int]));
                let it = item_of(&xs[i]);
                out.push(it);
                i += 1;
            }
            assert(out@.map_values(|x: CatalogItem| item_view(x)) =~= xv.map_values(|x: JsonView| item_model(x)));
            Some(out)
        },
        _ => None,
    }
}

/// The catalog that the parsed JSON value `v` describes: each section that
/// is an array, with each entry's fields that have the expected type.
pub fn catalog_from_json(v: &Json) -> (c: Catalog)
    ensures
        catalog_view(c) == catalog_model(json_view(*v)),
{
    Catalog { miners: section_of(v, "miners"), wallets: section_of(v, "wallets"), pools: section_of(v, "pools") }
}

/// Reads a catalog from its JSON text: `None` where the text is not JSON,
/// else the catalog that the parsed value describes.
pub fn read_catalog(text: &str) -> (r: Option<Catalog>)
    ensures
        r is Some <==> json_accepts(text@),
        r matches Some(c) ==> catalog_view(c) == catalog_model(json_model(text@)->0),
{
    match parse_json(text) {
        Some(v) => Some(catalog_from_json(&v)),
        None => None,
    }
}

/// How fetching the remote catalog went.
pub enum FetchOutcome {
    /// The request could not be made.
    RequestFailed(String),
    /// The server answered with an unsuccessful status.
    BadStatus(u16),
    /// The body could not be read.
    ReadFailed(String),
    /// The body of a successful answer.
    Body(String),
}

/// What replaces the cached catalog after a fetch: the body of a successful
/// answer that is valid JSON; in every other case the cache is kept.
pub fn catalog_to_cache(outcome: FetchOutcome) -> (r: Option<String>)
    ensures
        r matches Some(b) ==> ({
            &&& outcome matches FetchOutcome::Body(x)
            &&& x == b
            &&& json_accepts(b@)
        }),
        r is None ==> !(outcome matches FetchOutcome::Body(x) && json_accepts(x@)),
{
    match outcome {
        FetchOutcome::Body(b) => {
            if parse_json(b.as_str()).is_some() {
                Some(b)
            } else {
                None
            }
        },
        _ => None,
    }
}

} // verus!
