use vstd::prelude::*;
use vstd::string::StringExecFns;

verus! {

/// The GraphQL document that asks for the media matching a search, ranked by
/// how many users favour them.
pub const MEDIA_QUERY: &'static str = "query ($page: Int, $perPage: Int, $search: String) {
        Page(page: $page, perPage: $perPage) {
          pageInfo {
            total
            perPage
          }
          media(search: $search, type: ANIME, sort: FAVOURITES_DESC) {
            id
            title {
              romaji
              english
              native
            }
            type
            description
          }
        }
      }
";

/// A lower-case hexadecimal digit.
pub open spec fn hex_digit(d: nat) -> char {
    if d < 10 {
        ((48 + d) as u8) as char
    } else {
        ((87 + d) as u8) as char
    }
}

/// How one character stands inside a JSON string literal: a quote and a
/// backslash are escaped, the control characters with a short form take it,
/// the other control characters become `\u00` and two hex digits, and every
/// other character stands as it is.
pub open spec fn escaped_char(c: char) -> Seq<char> {
    if c == '"' {
        seq!['\\', '"']
    } else if c == '\\' {
        seq!['\\', '\\']
    } else if c == '\u{8}' {
        seq!['\\', 'b']
    } else if c == '\t' {
        seq!['\\', 't']
    } else if c == '\n' {
        seq!['\\', 'n']
    } else if c == '\u{c}' {
        seq!['\\', 'f']
    } else if c == '\r' {
        seq!['\\', 'r']
    } else if (c as u32) < 32 {
        seq!['\\', 'u', '0', '0', hex_digit((c as u32 / 16) as nat), hex_digit((c as u32 % 16) as nat)]
    } else {
        seq![c]
    }
}

/// The characters of a text, each as it stands inside a JSON string literal.
pub open spec fn escaped(s: Seq<char>) -> Seq<char>
    decreases s.len(),
{
    if s.len() == 0 {
        Seq::empty()
    } else {
        escaped(s.drop_last()) + escaped_char(s.last())
    }
}

/// The JSON string literal of a text: quoted, with its special characters escaped.
pub open spec fn json_quoted(s: Seq<char>) -> Seq<char> {
    seq!['"'] + escaped(s) + seq!['"']
}

/// Relies on serde_json's Display for Value::String, which writes the text
/// between quotes through the escape table of its serializer.
#[verifier::external_body]
fn quote_json(s: &str) -> (r: String)
    ensures
        r@ == json_quoted(s@),
{
    serde_json::Value::String(s.to_owned()).to_string()
}

/// The JSON body of a GraphQL search: the media document, with the search text
/// as a variable and one result on the first page.
pub open spec fn graphql_body_text(query: Seq<char>) -> Seq<char> {
    "{\"query\":"@ + json_quoted(MEDIA_QUERY@) + ",\"variables\":{\"page\":1,\"perPage\":1,\"search\":"@
        + json_quoted(query) + "}}"@
}

/// Builds the JSON body of a GraphQL search for `query`.
pub fn graphql_body(query: &str) -> (r: String)
    ensures
        r@ == graphql_body_text(query@),
{
    let mut r = String::from_str("{\"query\":");
    let doc = quote_json(MEDIA_QUERY);
    r.append(doc.as_str());
    r.append(",\"variables\":{\"page\":1,\"perPage\":1,\"search\":");
    let q = quote_json(query);
    r.append(q.as_str());
    r.append("}}");
    r
}

/// The URL parameters of a REST search for `query`: `m=search` and `q=query`.
pub fn search_parameters(query: &str) -> (r: Vec<(String, String)>)
    ensures
        r@.len() == 2,
        r@[0].0@ == "m"@ && r@[0].1@ == "search"@,
        r@[1].0@ == "q"@ && r@[1].1@ == query@,
{
    let mut r: Vec<(String, String)> = Vec::new();
    r.push((String::from_str("m"), String::from_str("search")));
    r.push((String::from_str("q"), String::from_str(query)));
    r
}

} // verus!
