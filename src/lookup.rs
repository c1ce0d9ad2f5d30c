use vstd::prelude::*;

use crate::decode::{decode_search_page, page_decodes, page_read};
use crate::display::{lists_fields, to_display_fields};
use crate::json::{json_doc, parse_json, JsonValue};
use crate::media::{media_decodes, media_items, media_summary, record_read, summarizes};
use crate::model::{DisplayField, FetchError, MediaRecord, MediaSummary, SearchResultPage};

verus! {

/// Whether `text` is JSON that reads as a page of search hits.
pub open spec fn page_text_decodes(text: Seq<char>) -> bool {
    json_doc(text) matches Some(v) && page_decodes(v)
}

/// Whether `text` is JSON that reads as a GraphQL answer with media records.
pub open spec fn media_text_decodes(text: Seq<char>) -> bool {
    json_doc(text) matches Some(v) && media_decodes(v)
}

/// The display fields of the first `max_count` hits of a decoded page
/// document, or the `DecodeError` of a document that does not read as a page.
pub fn fields_from_json(v: &JsonValue, max_count: usize) -> (r: Result<
    Vec<DisplayField>,
    FetchError,
>)
    ensures
        r is Ok == page_decodes(*v),
        r matches Ok(fs) ==> exists|p: SearchResultPage|
            page_read(p, *v) && lists_fields(fs@, p, max_count as nat),
        r matches Err(e) ==> e is DecodeError,
{
    match decode_search_page(v) {
        Ok(p) => {
            let fs = to_display_fields(&p, max_count);
            Ok(fs)
        },
        Err(e) => Err(e),
    }
}

/// Reads a REST search answer into a page of hits. Text that is not JSON, or
/// not of the page's shape, is a `DecodeError`.
pub fn search_page_from_body(body: &str) -> (r: Result<SearchResultPage, FetchError>)
    ensures
        r is Ok == page_text_decodes(body@),
        r matches Ok(p) ==> page_read(p, json_doc(body@)->0),
        r matches Err(e) ==> e is DecodeError,
{
    match parse_json(body) {
        Ok(v) => decode_search_page(&v),
        Err(e) => Err(e),
    }
}

/// The display fields of the first `max_count` hits of a REST search answer.
pub fn search_fields_from_body(body: &str, max_count: usize) -> (r: Result<
    Vec<DisplayField>,
    FetchError,
>)
    ensures
        r is Ok == page_text_decodes(body@),
        r matches Ok(fs) ==> exists|p: SearchResultPage|
            page_read(p, json_doc(body@)->0) && lists_fields(fs@, p, max_count as nat),
        r matches Err(e) ==> e is DecodeError,
{
    match parse_json(body) {
        Ok(v) => fields_from_json(&v, max_count),
        Err(e) => Err(e),
    }
}

/// What is shown of the best match of a GraphQL answer's text: a
/// `DecodeError` where it is not JSON or does not read, a `NoResultsError`
/// where it holds no record.
pub fn media_summary_from_body(body: &str) -> (r: Result<MediaSummary, FetchError>)
    ensures
        !media_text_decodes(body@) ==> (r matches Err(e) && e is DecodeError),
        media_text_decodes(body@) && media_items(json_doc(body@)->0)->0.len() == 0 ==> r matches Err(
            FetchError::NoResultsError,
        ),
        media_text_decodes(body@) && media_items(json_doc(body@)->0)->0.len() > 0 ==> (r matches Ok(
            s,
        ) && exists|rec: MediaRecord|
            record_read(rec, media_items(json_doc(body@)->0)->0[0]) && summarizes(s, rec)),
{
    match parse_json(body) {
        Ok(v) => media_summary(&v),
        Err(e) => Err(e),
    }
}

} // verus!
