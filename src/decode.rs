use vstd::prelude::*;
use vstd::string::StringExecFns;

use crate::json::{JsonMember, JsonValue};
use crate::model::{FetchError, SearchResultItem, SearchResultPage};

verus! {

/// The value of the first member named `key`.
pub open spec fn lookup(ms: Seq<JsonMember>, key: Seq<char>) -> Option<JsonValue>
    decreases ms.len(),
{
    if ms.len() == 0 {
        None
    } else if ms[0].key@ == key {
        Some(ms[0].value)
    } else {
        lookup(ms.drop_first(), key)
    }
}

/// The members of an object, or `None` for any other value.
pub open spec fn members(v: JsonValue) -> Option<Seq<JsonMember>> {
    match v {
        JsonValue::Object(ms) => Some(ms@),
        _ => None,
    }
}

/// The value of member `key` of `v`, where `v` is an object that has one.
pub open spec fn member(v: JsonValue, key: Seq<char>) -> Option<JsonValue> {
    match members(v) {
        Some(ms) => lookup(ms, key),
        None => None,
    }
}

/// The value behind an optional reference.
pub open spec fn owned(v: Option<&JsonValue>) -> Option<JsonValue> {
    match v {
        Some(x) => Some(*x),
        None => None,
    }
}

/// A field read as an unsigned 32-bit integer: a whole number in range; a
/// missing or null field reads as `absent`; anything else fails.
pub open spec fn u32_or(v: Option<JsonValue>, absent: Option<u32>) -> Option<u32> {
    match v {
        None => absent,
        Some(JsonValue::Null) => absent,
        Some(JsonValue::Number(n)) => match n.whole {
            Some(w) => if w <= u32::MAX {
                Some(w as u32)
            } else {
                None
            },
            None => None,
        },
        Some(_) => None,
    }
}

/// A field read as text: a string; a missing or null field reads as `absent`.
pub open spec fn text_or(v: Option<JsonValue>, absent: Option<Seq<char>>) -> Option<Seq<char>> {
    match v {
        None => absent,
        Some(JsonValue::Null) => absent,
        Some(JsonValue::Text(s)) => Some(s@),
        Some(_) => None,
    }
}

/// A field read as the decimal text of a number; missing or null reads as `0`.
pub open spec fn score_text(v: Option<JsonValue>) -> Option<Seq<char>> {
    match v {
        None => Some(seq!['0']),
        Some(JsonValue::Null) => Some(seq!['0']),
        Some(JsonValue::Number(n)) => Some(n.text@),
        Some(_) => None,
    }
}

/// A field read as optional text: missing or null is no text.
pub open spec fn session_text(v: Option<JsonValue>) -> Option<Option<Seq<char>>> {
    match v {
        None => Some(None),
        Some(JsonValue::Null) => Some(None),
        Some(JsonValue::Text(s)) => Some(Some(s@)),
        Some(_) => None,
    }
}

/// Whether `v` is an object whose fields read as a search hit: `id` and
/// `title` present, every other field of the right type where present.
pub open spec fn item_decodes(v: JsonValue) -> bool {
    &&& members(v) is Some
    &&& u32_or(member(v, "id"@), None) is Some
    &&& text_or(member(v, "title"@), None) is Some
    &&& text_or(member(v, "poster"@), Some(Seq::empty())) is Some
    &&& score_text(member(v, "score"@)) is Some
    &&& u32_or(member(v, "episodes"@), Some(0)) is Some
    &&& u32_or(member(v, "year"@), Some(0)) is Some
    &&& text_or(member(v, "season"@), Some(Seq::empty())) is Some
    &&& text_or(member(v, "status"@), Some(Seq::empty())) is Some
    &&& text_or(member(v, "type"@), Some(Seq::empty())) is Some
    &&& session_text(member(v, "session"@)) is Some
}

/// Whether `it` holds what the fields of `v` read as.
pub open spec fn item_read(it: SearchResultItem, v: JsonValue) -> bool {
    &&& u32_or(member(v, "id"@), None) == Some(it.id)
    &&& text_or(member(v, "title"@), None) == Some(it.title@)
    &&& text_or(member(v, "poster"@), Some(Seq::empty())) == Some(it.poster@)
    &&& score_text(member(v, "score"@)) == Some(it.score@)
    &&& u32_or(member(v, "episodes"@), Some(0)) == Some(it.episodes)
    &&& u32_or(member(v, "year"@), Some(0)) == Some(it.year)
    &&& text_or(member(v, "season"@), Some(Seq::empty())) == Some(it.season@)
    &&& text_or(member(v, "status"@), Some(Seq::empty())) == Some(it.status@)
    &&& text_or(member(v, "type"@), Some(Seq::empty())) == Some(it.kind@)
    &&& session_text(member(v, "session"@)) == Some(
        match it.session {
            Some(s) => Some(s@),
            None => None,
        },
    )
}

/// The hits of a page document: its `data` member, which must be an array.
pub open spec fn page_items(v: JsonValue) -> Option<Seq<JsonValue>> {
    match member(v, "data"@) {
        Some(JsonValue::Array(items)) => Some(items@),
        _ => None,
    }
}

/// Whether `v` reads as a page of search hits.
pub open spec fn page_decodes(v: JsonValue) -> bool {
    &&& page_items(v) is Some
    &&& forall|i: int|
        0 <= i < page_items(v)->0.len() ==> item_decodes(#[trigger] page_items(v)->0[i])
    &&& u32_or(member(v, "from"@), Some(0)) is Some
    &&& u32_or(member(v, "last_page"@), Some(0)) is Some
    &&& u32_or(member(v, "per_page"@), Some(0)) is Some
    &&& u32_or(member(v, "to"@), Some(0)) is Some
    &&& u32_or(member(v, "total"@), Some(0)) is Some
}

/// Whether `p` holds what `v` reads as, its hits in document order.
pub open spec fn page_read(p: SearchResultPage, v: JsonValue) -> bool {
    &&& page_items(v) is Some
    &&& p.data@.len() == page_items(v)->0.len()
    &&& forall|i: int|
        0 <= i < p.data@.len() ==> item_read(#[trigger] p.data@[i], page_items(v)->0[i])
    &&& u32_or(member(v, "from"@), Some(0)) == Some(p.from)
    &&& u32_or(member(v, "last_page"@), Some(0)) == Some(p.last_page)
    &&& u32_or(member(v, "per_page"@), Some(0)) == Some(p.per_page)
    &&& u32_or(member(v, "to"@), Some(0)) == Some(p.to)
    &&& u32_or(member(v, "total"@), Some(0)) == Some(p.total)
}

/// The position of the first member named `key`.
pub fn find_member(ms: &Vec<JsonMember>, key: &String) -> (r: Option<usize>)
    ensures
        r matches Some(i) ==> i < ms@.len() && lookup(ms@, key@) == Some(ms@[i as int].value),
        r is None ==> lookup(ms@, key@) is None,
{
    let mut i: usize = 0;
    assert(ms@.subrange(0, ms@.len() as int) =~= ms@);
    while i < ms.len()
        invariant
            i <= ms@.len(),
            lookup(ms@, key@) == lookup(ms@.subrange(i as int, ms@.len() as int), key@),
        decreases ms@.len() - i,
    {
        let ghost rest = ms@.subrange(i as int, ms@.len() as int);
        assert(rest.drop_first() =~= ms@.subrange(i + 1, ms@.len() as int));
        assert(rest[0] == ms@[i as int]);
        if ms[i].key == *key {
            return Some(i);
        }
        i = i + 1;
    }
    None
}

/// The value of member `key` of the members `ms`.
pub fn member_of<'a>(ms: &'a Vec<JsonMember>, key: &str) -> (r: Option<&'a JsonValue>)
    ensures
        owned(r) == lookup(ms@, key@),
{
    let k = String::from_str(key);
    match find_member(ms, &k) {
        Some(i) => Some(&ms[i].value),
        None => None,
    }
}

/// Reads an unsigned 32-bit field, `absent` where it is missing or null.
pub fn read_u32(v: Option<&JsonValue>, absent: Option<u32>) -> (r: Option<u32>)
    ensures
        r == u32_or(owned(v), absent),
{
    match v {
        None => absent,
        Some(JsonValue::Null) => absent,
        Some(JsonValue::Number(n)) => match n.whole {
            Some(w) => if w <= u32::MAX as u64 {
                Some(w as u32)
            } else {
                None
            },
            None => None,
        },
        Some(_) => None,
    }
}

/// Reads a text field; where it is missing or null, empty text if `optional`,
/// else nothing.
pub fn read_text(v: Option<&JsonValue>, optional: bool) -> (r: Option<String>)
    ensures
        r is Some == text_or(owned(v), if optional { Some(Seq::empty()) } else { None }) is Some,
        r matches Some(s) ==> text_or(owned(v), if optional { Some(Seq::empty()) } else { None })
            == Some(s@),
{
    match v {
        None => if optional {
            Some(String::new())
        } else {
            None
        },
        Some(JsonValue::Null) => if optional {
            Some(String::new())
        } else {
            None
        },
        Some(JsonValue::Text(s)) => Some(s.clone()),
        Some(_) => None,
    }
}

/// Reads a score: the decimal text of a number, `0` where missing or null.
pub fn read_score(v: Option<&JsonValue>) -> (r: Option<String>)
    ensures
        r is Some == score_text(owned(v)) is Some,
        r matches Some(s) ==> score_text(owned(v)) == Some(s@),
{
    proof {
        reveal_strlit("0");
    }
    match v {
        None => Some(String::from_str("0")),
        Some(JsonValue::Null) => Some(String::from_str("0")),
        Some(JsonValue::Number(n)) => Some(n.text.clone()),
        Some(_) => None,
    }
}

/// Reads an optional text field.
pub fn read_session(v: Option<&JsonValue>) -> (r: Option<Option<String>>)
    ensures
        r is Some == session_text(owned(v)) is Some,
        r matches Some(o) ==> session_text(owned(v)) == Some(
            match o {
                Some(s) => Some(s@),
                None => None,
            },
        ),
{
    match v {
        None => Some(None),
        Some(JsonValue::Null) => Some(None),
        Some(JsonValue::Text(s)) => Some(Some(s.clone())),
        Some(_) => None,
    }
}

pub(crate) fn decode_failure(what: &str) -> (r: FetchError)
    ensures
        r is DecodeError,
{
    FetchError::DecodeError(String::from_str(what))
}

/// Reads a search hit from its JSON object.
pub fn decode_item(v: &JsonValue) -> (r: Result<SearchResultItem, FetchError>)
    ensures
        r is Ok == item_decodes(*v),
        r matches Ok(it) ==> item_read(it, *v),
        r matches Err(e) ==> e is DecodeError,
{
    let ms = match v {
        JsonValue::Object(ms) => ms,
        _ => return Err(decode_failure("a search hit is not an object")),
    };
    let id = match read_u32(member_of(ms, "id"), None) {
        Some(x) => x,
        None => return Err(decode_failure("missing or invalid field `id`")),
    };
    let title = match read_text(member_of(ms, "title"), false) {
        Some(x) => x,
        None => return Err(decode_failure("missing or invalid field `title`")),
    };
    let poster = match read_text(member_of(ms, "poster"), true) {
        Some(x) => x,
        None => return Err(decode_failure("invalid field `poster`")),
    };
    let score = match read_score(member_of(ms, "score")) {
        Some(x) => x,
        None => return Err(decode_failure("invalid field `score`")),
    };
    let episodes = match read_u32(member_of(ms, "episodes"), Some(0)) {
        Some(x) => x,
        None => return Err(decode_failure("invalid field `episodes`")),
    };
    let year = match read_u32(member_of(ms, "year"), Some(0)) {
        Some(x) => x,
        None => return Err(decode_failure("invalid field `year`")),
    };
    let season = match read_text(member_of(ms, "season"), true) {
        Some(x) => x,
        None => return Err(decode_failure("invalid field `season`")),
    };
    let status = match read_text(member_of(ms, "status"), true) {
        Some(x) => x,
        None => return Err(decode_failure("invalid field `status`")),
    };
    let kind = match read_text(member_of(ms, "type"), true) {
        Some(x) => x,
        None => return Err(decode_failure("invalid field `type`")),
    };
    let session = match read_session(member_of(ms, "session")) {
        Some(x) => x,
        None => return Err(decode_failure("invalid field `session`")),
    };
    Ok(SearchResultItem { id, title, poster, score, episodes, year, season, status, kind, session })
}

/// Reads a page of search hits from its JSON document, hits in document order.
pub fn decode_search_page(v: &JsonValue) -> (r: Result<SearchResultPage, FetchError>)
    ensures
        r is Ok == page_decodes(*v),
        r matches Ok(p) ==> page_read(p, *v),
        r matches Err(e) ==> e is DecodeError,
{
    let ms = match v {
        JsonValue::Object(ms) => ms,
        _ => return Err(decode_failure("a search page is not an object")),
    };
    let items = match member_of(ms, "data") {
        Some(JsonValue::Array(items)) => items,
        _ => return Err(decode_failure("missing or invalid field `data`")),
    };
    let mut data: Vec<SearchResultItem> = Vec::new();
    let mut i: usize = 0;
    while i < items.len()
        invariant
            page_items(*v) == Some(items@),
            i <= items@.len(),
            data@.len() == i,
            forall|j: int| 0 <= j < i ==> item_decodes(#[trigger] items@[j]),
            forall|j: int| 0 <= j < i ==> item_read(#[trigger] data@[j], items@[j]),
        decreases items@.len() - i,
    {
        match decode_item(&items[i]) {
            Ok(it) => data.push(it),
            Err(e) => {
                assert(!item_decodes(page_items(*v)->0[i as int]));
                return Err(e);
            },
        }
        i = i + 1;
    }
    let from = match read_u32(member_of(ms, "from"), Some(0)) {
        Some(x) => x,
        None => return Err(decode_failure("invalid field `from`")),
    };
    let last_page = match read_u32(member_of(ms, "last_page"), Some(0)) {
        Some(x) => x,
        None => return Err(decode_failure("invalid field `last_page`")),
    };
    let per_page = match read_u32(member_of(ms, "per_page"), Some(0)) {
        Some(x) => x,
        None => return Err(decode_failure("invalid field `per_page`")),
    };
    let to = match read_u32(member_of(ms, "to"), Some(0)) {
        Some(x) => x,
        None => return Err(decode_failure("invalid field `to`")),
    };
    let total = match read_u32(member_of(ms, "total"), Some(0)) {
        Some(x) => x,
        None => return Err(decode_failure("invalid field `total`")),
    };
    Ok(SearchResultPage { data, from, last_page, per_page, to, total })
}

/// A search hit without a `title` member does not read: its decoding fails
/// (with a `DecodeError`) rather than yield a default title.
pub proof fn lemma_missing_title_rejected(v: JsonValue)
    requires
        member(v, "title"@) is None,
    ensures
        !item_decodes(v),
{
}

/// A page one of whose hits has no `title` member does not read either.
pub proof fn lemma_page_missing_title_rejected(v: JsonValue, i: int)
    requires
        page_items(v) is Some,
        0 <= i < page_items(v)->0.len(),
        member(page_items(v)->0[i], "title"@) is None,
    ensures
        !page_decodes(v),
{
    lemma_missing_title_rejected(page_items(v)->0[i]);
}

} // verus!
