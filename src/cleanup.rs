use vstd::prelude::*;

use crate::text::{
    chars_of, contains, lemma_removed_char_absent, lemma_replaced_absent, lemma_replaced_excludes,
    replace_all, replaced, string_of,
};

verus! {

/// The markup line break `<br>`.
pub open spec fn break_tag() -> Seq<char> {
    seq!['<', 'b', 'r', '>']
}

/// A backslash followed by `n`: a newline left escaped.
pub open spec fn escaped_newline() -> Seq<char> {
    seq!['\\', 'n']
}

pub open spec fn newline() -> Seq<char> {
    seq!['\n']
}

pub open spec fn quote() -> Seq<char> {
    seq!['"']
}

/// `s` without its double quotes.
pub open spec fn unquoted(s: Seq<char>) -> Seq<char> {
    replaced(s, quote(), Seq::empty())
}

/// A description made readable: double quotes are dropped, then each `<br>`,
/// then each escaped newline, becomes a real line break.
pub open spec fn normalized(s: Seq<char>) -> Seq<char> {
    replaced(replaced(unquoted(s), break_tag(), newline()), escaped_newline(), newline())
}

/// Drops the double quotes of a text.
pub fn strip_quotes(s: &str) -> (r: String)
    ensures
        r@ == unquoted(s@),
{
    let cs = chars_of(s);
    let q: Vec<char> = vec!['"'];
    let none: Vec<char> = Vec::new();
    assert(q@ =~= quote());
    assert(none@ =~= Seq::<char>::empty());
    let out = replace_all(&cs, &q, &none);
    string_of(&out)
}

/// Normalizes a description: line breaks made real, double quotes dropped.
pub fn normalize_description(s: &str) -> (r: String)
    ensures
        r@ == normalized(s@),
        !contains(r@, quote()),
        !contains(r@, break_tag()),
        !contains(r@, escaped_newline()),
{
    proof {
        lemma_normalized_clean(s@);
    }
    let cs = chars_of(s);
    let br: Vec<char> = vec!['<', 'b', 'r', '>'];
    let esc: Vec<char> = vec!['\\', 'n'];
    let nl: Vec<char> = vec!['\n'];
    let q: Vec<char> = vec!['"'];
    let none: Vec<char> = Vec::new();
    assert(br@ =~= break_tag());
    assert(esc@ =~= escaped_newline());
    assert(nl@ =~= newline());
    assert(q@ =~= quote());
    assert(none@ =~= Seq::<char>::empty());
    let a = replace_all(&cs, &q, &none);
    let b = replace_all(&a, &br, &nl);
    let c = replace_all(&b, &esc, &nl);
    string_of(&c)
}

/// A normalized description holds no double quote, no `<br>` and no escaped
/// newline.
pub proof fn lemma_normalized_clean(s: Seq<char>)
    ensures
        !contains(normalized(s), quote()),
        !contains(normalized(s), break_tag()),
        !contains(normalized(s), escaped_newline()),
{
    let u = unquoted(s);
    let a = replaced(u, break_tag(), newline());
    lemma_removed_char_absent(s, '"');
    assert(quote() == seq!['"']);
    assert(newline().len() == 1 && newline()[0] == '\n');
    assert forall|j: int| 0 <= j < quote().len() implies crate::text::avoids(#[trigger] quote()[j], newline()) by {}
    assert forall|j: int| 0 <= j < break_tag().len() implies crate::text::avoids(#[trigger] break_tag()[j], newline()) by {}
    assert forall|j: int| 0 <= j < escaped_newline().len() implies crate::text::avoids(#[trigger] escaped_newline()[j], newline()) by {}
    lemma_replaced_excludes(u, break_tag(), newline(), break_tag());
    lemma_replaced_excludes(u, break_tag(), newline(), quote());
    lemma_replaced_excludes(a, escaped_newline(), newline(), escaped_newline());
    lemma_replaced_excludes(a, escaped_newline(), newline(), break_tag());
    lemma_replaced_excludes(a, escaped_newline(), newline(), quote());
}

/// Normalizing a description twice gives what normalizing it once gave.
pub proof fn lemma_normalize_idempotent(s: Seq<char>)
    ensures
        normalized(normalized(s)) == normalized(s),
{
    let t = normalized(s);
    lemma_normalized_clean(s);
    lemma_normalized_text_unchanged(t);
}

/// Text with no `<br>`, no escaped newline and no double quote is already
/// normalized.
pub proof fn lemma_normalized_text_unchanged(t: Seq<char>)
    requires
        !contains(t, break_tag()),
        !contains(t, escaped_newline()),
        !contains(t, quote()),
    ensures
        normalized(t) == t,
{
    lemma_replaced_absent(t, break_tag(), newline());
    lemma_replaced_absent(t, escaped_newline(), newline());
    lemma_replaced_absent(t, quote(), Seq::empty());
}

} // verus!
