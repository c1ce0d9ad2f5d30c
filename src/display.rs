use vstd::prelude::*;
use vstd::string::StringExecFns;

use crate::model::{DisplayField, SearchResultItem, SearchResultPage};
use crate::text::{decimal, push_decimal};

verus! {

/// The heading of a search hit: `{title} ({year})`.
pub open spec fn heading_text(item: SearchResultItem) -> Seq<char> {
    item.title@ + " ("@ + decimal(item.year as nat) + ")"@
}

/// The body of a search hit: a watch link built from its identifier, then its
/// score, episode count, status and kind, one labelled line each.
pub open spec fn body_text(item: SearchResultItem) -> Seq<char> {
    "Watch: [animepahe](https://animepahe.com/a/"@ + decimal(item.id as nat)
        + ")\nScore: **"@ + item.score@ + "**\nEpisodes: **"@ + decimal(item.episodes as nat)
        + "**\nStatus: **"@ + item.status@ + "**\nType: **"@ + item.kind@ + "**"@
}

/// Whether `f` is the display field of `item`.
pub open spec fn shows(f: DisplayField, item: SearchResultItem) -> bool {
    &&& f.heading@ == heading_text(item)
    &&& f.body@ == body_text(item)
    &&& !f.inline
}

/// The number of fields shown of `n` hits at most `k` of them: the smaller.
pub open spec fn shown_count(n: nat, k: nat) -> nat {
    if n < k {
        n
    } else {
        k
    }
}

/// Whether `fs` are the fields of the first `k` hits of `p`, in page order.
pub open spec fn lists_fields(fs: Seq<DisplayField>, p: SearchResultPage, k: nat) -> bool {
    &&& fs.len() == shown_count(p.data@.len(), k)
    &&& forall|i: int| 0 <= i < fs.len() ==> shows(#[trigger] fs[i], p.data@[i])
}

/// The heading of a search hit.
pub fn heading_of(item: &SearchResultItem) -> (r: String)
    ensures
        r@ == heading_text(*item),
{
    let mut r = item.title.clone();
    r.append(" (");
    push_decimal(&mut r, item.year as u64);
    r.append(")");
    r
}

/// The body of a search hit.
pub fn body_of(item: &SearchResultItem) -> (r: String)
    ensures
        r@ == body_text(*item),
{
    let mut r = String::from_str("Watch: [animepahe](https://animepahe.com/a/");
    push_decimal(&mut r, item.id as u64);
    r.append(")\nScore: **");
    r.append(item.score.as_str());
    r.append("**\nEpisodes: **");
    push_decimal(&mut r, item.episodes as u64);
    r.append("**\nStatus: **");
    r.append(item.status.as_str());
    r.append("**\nType: **");
    r.append(item.kind.as_str());
    r.append("**");
    r
}

/// The display field of one search hit, never inline.
pub fn field_of(item: &SearchResultItem) -> (r: DisplayField)
    ensures
        shows(r, *item),
{
    DisplayField { heading: heading_of(item), body: body_of(item), inline: false }
}

/// The display fields of the first `max_count` hits of a page, in page order.
pub fn to_display_fields(page: &SearchResultPage, max_count: usize) -> (r: Vec<DisplayField>)
    ensures
        lists_fields(r@, *page, max_count as nat),
{
    let n = if page.data.len() < max_count {
        page.data.len()
    } else {
        max_count
    };
    let mut r: Vec<DisplayField> = Vec::new();
    let mut i: usize = 0;
    while i < n
        invariant
            n <= page.data@.len(),
            n == if page.data@.len() < max_count {
                page.data@.len() as int
            } else {
                max_count as int
            },
            i <= n,
            r@.len() == i,
            forall|j: int| 0 <= j < i ==> shows(#[trigger] r@[j], page.data@[j]),
        decreases n - i,
    {
        let f = field_of(&page.data[i]);
        r.push(f);
        i = i + 1;
    }
    r
}

/// The body of a search hit in a numbered listing: its watch link, then its
/// position in the page, counted from zero.
pub open spec fn listing_body_text(item: SearchResultItem, i: nat) -> Seq<char> {
    "Watch: [animepahe](https://animepahe.com/a/"@ + decimal(item.id as nat) + ")\n"@ + decimal(i)
}

/// The numbered listing body of a search hit at position `i`.
pub fn listing_body_of(item: &SearchResultItem, i: usize) -> (r: String)
    ensures
        r@ == listing_body_text(*item, i as nat),
{
    let mut r = String::from_str("Watch: [animepahe](https://animepahe.com/a/");
    push_decimal(&mut r, item.id as u64);
    r.append(")\n");
    push_decimal(&mut r, i as u64);
    r
}

/// The display fields of every hit of a page as a numbered listing, in page
/// order: the usual heading, a body of watch link and position, never inline.
pub fn session_fields(page: &SearchResultPage) -> (r: Vec<DisplayField>)
    ensures
        r@.len() == page.data@.len(),
        forall|i: int|
            0 <= i < r@.len() ==> {
                &&& (#[trigger] r@[i]).heading@ == heading_text(page.data@[i])
                &&& r@[i].body@ == listing_body_text(page.data@[i], i as nat)
                &&& !r@[i].inline
            },
{
    let mut r: Vec<DisplayField> = Vec::new();
    let mut i: usize = 0;
    while i < page.data.len()
        invariant
            i <= page.data@.len(),
            r@.len() == i,
            forall|j: int|
                0 <= j < i ==> {
                    &&& (#[trigger] r@[j]).heading@ == heading_text(page.data@[j])
                    &&& r@[j].body@ == listing_body_text(page.data@[j], j as nat)
                    &&& !r@[j].inline
                },
        decreases page.data@.len() - i,
    {
        let item = &page.data[i];
        r.push(DisplayField { heading: heading_of(item), body: listing_body_of(item, i), inline: false });
        i = i + 1;
    }
    r
}

} // verus!
