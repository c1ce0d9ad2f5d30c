use vstd::prelude::*;

use crate::cleanup::{normalize_description, normalized, strip_quotes, unquoted};
use crate::decode::{decode_failure, member, member_of, members, read_text, read_u32, text_or, u32_or};
use crate::json::JsonValue;
use crate::model::{FetchError, MediaRecord, MediaSummary, MediaTitle};

verus! {

/// The media records of a GraphQL answer: its `data.Page.media` array.
pub open spec fn media_items(v: JsonValue) -> Option<Seq<JsonValue>> {
    match member(v, "data"@) {
        Some(d) => match member(d, "Page"@) {
            Some(p) => match member(p, "media"@) {
                Some(JsonValue::Array(a)) => Some(a@),
                _ => None,
            },
            None => None,
        },
        None => None,
    }
}

/// A required text field of a media record: a string, never missing or null.
pub open spec fn media_text(v: JsonValue, key: Seq<char>) -> Option<Seq<char>> {
    text_or(member(v, key), None)
}

/// Whether `v` is an object that reads as a media record: an `id`, a `title`
/// object whose three scripts are text, and `type` and `description` as text.
pub open spec fn record_decodes(v: JsonValue) -> bool {
    &&& members(v) is Some
    &&& u32_or(member(v, "id"@), None) is Some
    &&& member(v, "title"@) is Some
    &&& members(member(v, "title"@)->0) is Some
    &&& media_text(member(v, "title"@)->0, "romaji"@) is Some
    &&& media_text(member(v, "title"@)->0, "english"@) is Some
    &&& media_text(member(v, "title"@)->0, "native"@) is Some
    &&& media_text(v, "type"@) is Some
    &&& media_text(v, "description"@) is Some
}

/// Whether `rec` holds what the fields of `v` read as.
pub open spec fn record_read(rec: MediaRecord, v: JsonValue) -> bool {
    &&& u32_or(member(v, "id"@), None) == Some(rec.id)
    &&& media_text(member(v, "title"@)->0, "romaji"@) == Some(rec.title.romaji@)
    &&& media_text(member(v, "title"@)->0, "english"@) == Some(rec.title.english@)
    &&& media_text(member(v, "title"@)->0, "native"@) == Some(rec.title.native@)
    &&& media_text(v, "type"@) == Some(rec.kind@)
    &&& media_text(v, "description"@) == Some(rec.description@)
}

/// Whether `v` is a GraphQL answer whose media records all read.
pub open spec fn media_decodes(v: JsonValue) -> bool {
    &&& media_items(v) is Some
    &&& forall|i: int|
        0 <= i < media_items(v)->0.len() ==> record_decodes(#[trigger] media_items(v)->0[i])
}

/// Whether `s` is what is shown of `rec`: its romanized title without double
/// quotes, and its normalized description.
pub open spec fn summarizes(s: MediaSummary, rec: MediaRecord) -> bool {
    &&& s.id == rec.id
    &&& s.title@ == unquoted(rec.title.romaji@)
    &&& s.description@ == normalized(rec.description@)
}

/// Reads a media record from its JSON object.
pub fn decode_media_record(v: &JsonValue) -> (r: Result<MediaRecord, FetchError>)
    ensures
        r is Ok == record_decodes(*v),
        r matches Ok(rec) ==> record_read(rec, *v),
        r matches Err(e) ==> e is DecodeError,
{
    let ms = match v {
        JsonValue::Object(ms) => ms,
        _ => return Err(decode_failure("a media record is not an object")),
    };
    let id = match read_u32(member_of(ms, "id"), None) {
        Some(x) => x,
        None => return Err(decode_failure("missing or invalid field `id`")),
    };
    let tms = match member_of(ms, "title") {
        Some(JsonValue::Object(tms)) => tms,
        _ => return Err(decode_failure("missing or invalid field `title`")),
    };
    let romaji = match read_text(member_of(tms, "romaji"), false) {
        Some(x) => x,
        None => return Err(decode_failure("missing or invalid field `romaji`")),
    };
    let english = match read_text(member_of(tms, "english"), false) {
        Some(x) => x,
        None => return Err(decode_failure("missing or invalid field `english`")),
    };
    let native = match read_text(member_of(tms, "native"), false) {
        Some(x) => x,
        None => return Err(decode_failure("missing or invalid field `native`")),
    };
    let kind = match read_text(member_of(ms, "type"), false) {
        Some(x) => x,
        None => return Err(decode_failure("missing or invalid field `type`")),
    };
    let description = match read_text(member_of(ms, "description"), false) {
        Some(x) => x,
        None => return Err(decode_failure("missing or invalid field `description`")),
    };
    Ok(MediaRecord { id, title: MediaTitle { romaji, english, native }, kind, description })
}

/// Reads the media records of a GraphQL answer, in document order.
pub fn decode_media_list(v: &JsonValue) -> (r: Result<Vec<MediaRecord>, FetchError>)
    ensures
        r is Ok == media_decodes(*v),
        r matches Ok(recs) ==> recs@.len() == media_items(*v)->0.len() && forall|i: int|
            0 <= i < recs@.len() ==> record_read(#[trigger] recs@[i], media_items(*v)->0[i]),
        r matches Err(e) ==> e is DecodeError,
{
    let ms = match v {
        JsonValue::Object(ms) => ms,
        _ => return Err(decode_failure("the answer is not an object")),
    };
    let dms = match member_of(ms, "data") {
        Some(JsonValue::Object(dms)) => dms,
        _ => return Err(decode_failure("missing or invalid field `data`")),
    };
    let pms = match member_of(dms, "Page") {
        Some(JsonValue::Object(pms)) => pms,
        _ => return Err(decode_failure("missing or invalid field `Page`")),
    };
    let items = match member_of(pms, "media") {
        Some(JsonValue::Array(items)) => items,
        _ => return Err(decode_failure("missing or invalid field `media`")),
    };
    let mut recs: Vec<MediaRecord> = Vec::new();
    let mut i: usize = 0;
    while i < items.len()
        invariant
            media_items(*v) == Some(items@),
            i <= items@.len(),
            recs@.len() == i,
            forall|j: int| 0 <= j < i ==> record_decodes(#[trigger] items@[j]),
            forall|j: int| 0 <= j < i ==> record_read(#[trigger] recs@[j], items@[j]),
        decreases items@.len() - i,
    {
        match decode_media_record(&items[i]) {
            Ok(rec) => recs.push(rec),
            Err(e) => {
                assert(!record_decodes(media_items(*v)->0[i as int]));
                return Err(e);
            },
        }
        i = i + 1;
    }
    Ok(recs)
}

/// What is shown of a media record.
pub fn summarize(rec: &MediaRecord) -> (r: MediaSummary)
    ensures
        summarizes(r, *rec),
{
    MediaSummary {
        id: rec.id,
        title: strip_quotes(rec.title.romaji.as_str()),
        description: normalize_description(rec.description.as_str()),
    }
}

/// What is shown of the best match: the first record, or `NoResultsError`
/// where there is none.
pub fn first_summary(recs: &Vec<MediaRecord>) -> (r: Result<MediaSummary, FetchError>)
    ensures
        recs@.len() == 0 <==> r matches Err(FetchError::NoResultsError),
        recs@.len() > 0 ==> (r matches Ok(s) && summarizes(s, recs@[0])),
{
    if recs.len() == 0 {
        Err(FetchError::NoResultsError)
    } else {
        Ok(summarize(&recs[0]))
    }
}

/// What is shown of the best match of a GraphQL answer: a `DecodeError` where
/// the answer does not read, a `NoResultsError` where it holds no record.
pub fn media_summary(v: &JsonValue) -> (r: Result<MediaSummary, FetchError>)
    ensures
        !media_decodes(*v) ==> (r matches Err(e) && e is DecodeError),
        media_decodes(*v) && media_items(*v)->0.len() == 0 ==> r matches Err(
            FetchError::NoResultsError,
        ),
        media_decodes(*v) && media_items(*v)->0.len() > 0 ==> (r matches Ok(s) && exists|
            rec: MediaRecord,
        | record_read(rec, media_items(*v)->0[0]) && summarizes(s, rec)),
{
    match decode_media_list(v) {
        Ok(recs) => {
            let r = first_summary(&recs);
            proof {
                if recs@.len() > 0 {
                    assert(record_read(recs@[0], media_items(*v)->0[0]));
                }
            }
            r
        },
        Err(e) => Err(e),
    }
}

} // verus!
