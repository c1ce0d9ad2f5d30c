use anime_lookup::cleanup::{normalize_description, strip_quotes};
use anime_lookup::display::{body_of, heading_of, session_fields, to_display_fields};
use anime_lookup::json::{parse_json, JsonMember, JsonNumber, JsonValue};
use anime_lookup::decode::decode_item;
use anime_lookup::lookup::{
    fields_from_json, media_summary_from_body, search_fields_from_body, search_page_from_body,
};
use anime_lookup::media::{first_summary, media_summary};
use anime_lookup::model::{FetchError, SearchResultItem, SearchResultPage};
use anime_lookup::request::{graphql_body, search_parameters, MEDIA_QUERY};

const NARUTO: &str = r#"{"data":[{"id":1,"title":"Naruto","poster":"","score":8.1,"episodes":220,"year":2002,"season":"fall","status":"Finished Airing","type":"TV"}],"from":1,"last_page":1,"per_page":10,"to":1,"total":1}"#;

fn item_json(id: u32, title: &str, year: u32) -> String {
    format!(
        r#"{{"id":{},"title":"{}","poster":"p","score":7.5,"episodes":12,"year":{},"season":"spring","status":"Airing","type":"TV","session":"s{}"}}"#,
        id, title, year, id
    )
}

fn page_json(n: u32, total: u32) -> String {
    let items: Vec<String> = (1..=n).map(|i| item_json(i, &format!("Show {}", i), 2000 + i)).collect();
    format!(
        r#"{{"data":[{}],"from":1,"last_page":5,"per_page":{},"to":{},"total":{}}}"#,
        items.join(","),
        n,
        n,
        total
    )
}

fn item(id: u32, title: &str, year: u32) -> SearchResultItem {
    SearchResultItem {
        id,
        title: title.to_string(),
        poster: String::new(),
        score: "9.05".to_string(),
        episodes: 24,
        year,
        season: "winter".to_string(),
        status: "Airing".to_string(),
        kind: "OVA".to_string(),
        session: None,
    }
}

fn media_body(media: &str) -> String {
    format!(r#"{{"data":{{"Page":{{"pageInfo":{{"total":1,"perPage":1}},"media":[{}]}}}}}}"#, media)
}

#[test]
fn naruto_end_to_end() {
    let fields = search_fields_from_body(NARUTO, 4).unwrap();
    assert_eq!(fields.len(), 1);
    assert_eq!(fields[0].heading, "Naruto (2002)");
    assert!(fields[0].body.contains("Episodes: **220**"));
    assert!(fields[0].body.contains("Status: **Finished Airing**"));
    assert!(!fields[0].inline);
}

#[test]
fn naruto_body_is_exact() {
    let fields = search_fields_from_body(NARUTO, 4).unwrap();
    assert_eq!(
        fields[0].body,
        "Watch: [animepahe](https://animepahe.com/a/1)\nScore: **8.1**\nEpisodes: **220**\nStatus: **Finished Airing**\nType: **TV**"
    );
}

#[test]
fn total_is_metadata_only() {
    let body = page_json(4, 50);
    let page = search_page_from_body(&body).unwrap();
    assert_eq!(page.total, 50);
    assert_eq!(page.data.len(), 4);
    let fields = search_fields_from_body(&body, 4).unwrap();
    assert_eq!(fields.len(), 4);
}

#[test]
fn truncates_to_max_count_in_order() {
    let body = page_json(6, 6);
    let fields = search_fields_from_body(&body, 4).unwrap();
    assert_eq!(fields.len(), 4);
    for (i, f) in fields.iter().enumerate() {
        let n = i as u32 + 1;
        assert_eq!(f.heading, format!("Show {} ({})", n, 2000 + n));
    }
}

#[test]
fn fewer_items_than_max_count() {
    let body = page_json(2, 2);
    let fields = search_fields_from_body(&body, 10).unwrap();
    assert_eq!(fields.len(), 2);
}

#[test]
fn empty_page_gives_no_fields() {
    let body = r#"{"data":[],"from":0,"last_page":0,"per_page":10,"to":0,"total":0}"#;
    let fields = search_fields_from_body(body, 4).unwrap();
    assert!(fields.is_empty());
}

#[test]
fn zero_max_count_gives_no_fields() {
    let fields = search_fields_from_body(NARUTO, 0).unwrap();
    assert!(fields.is_empty());
}

#[test]
fn missing_title_is_a_decode_error() {
    let body = r#"{"data":[{"id":1,"poster":"","score":8.1,"episodes":220,"year":2002,"season":"fall","status":"Finished Airing","type":"TV"}],"total":1}"#;
    assert!(matches!(search_page_from_body(body), Err(FetchError::DecodeError(_))));
    assert!(matches!(search_fields_from_body(body, 4), Err(FetchError::DecodeError(_))));
}

#[test]
fn wrong_field_type_is_a_decode_error() {
    let body = r#"{"data":[{"id":1,"title":"Naruto","episodes":"220"}],"total":1}"#;
    assert!(matches!(search_page_from_body(body), Err(FetchError::DecodeError(_))));
}

#[test]
fn malformed_json_is_a_decode_error() {
    assert!(matches!(search_page_from_body("{\"data\": ["), Err(FetchError::DecodeError(_))));
}

#[test]
fn missing_data_is_a_decode_error() {
    assert!(matches!(search_page_from_body(r#"{"total":3}"#), Err(FetchError::DecodeError(_))));
}

#[test]
fn optional_fields_take_defaults() {
    let body = r#"{"data":[{"id":7,"title":"Bare","unknown":true}]}"#;
    let page = search_page_from_body(body).unwrap();
    let it = &page.data[0];
    assert_eq!(it.id, 7);
    assert_eq!(it.title, "Bare");
    assert_eq!(it.score, "0");
    assert_eq!(it.episodes, 0);
    assert_eq!(it.year, 0);
    assert_eq!(it.kind, "");
    assert!(it.session.is_none());
    assert_eq!(page.total, 0);
}

#[test]
fn session_is_read_when_present() {
    let page = search_page_from_body(&page_json(1, 1)).unwrap();
    assert_eq!(page.data[0].session.as_deref(), Some("s1"));
    assert_eq!(page.data[0].score, "7.5");
}

#[test]
fn heading_and_body_of_an_item() {
    let it = item(4294967295, "Edge", 0);
    assert_eq!(heading_of(&it), "Edge (0)");
    assert_eq!(
        body_of(&it),
        "Watch: [animepahe](https://animepahe.com/a/4294967295)\nScore: **9.05**\nEpisodes: **24**\nStatus: **Airing**\nType: **OVA**"
    );
}

#[test]
fn display_fields_of_a_built_page() {
    let page = SearchResultPage {
        data: vec![item(1, "A", 1999), item(2, "B", 2010), item(3, "C", 2023)],
        from: 1,
        last_page: 1,
        per_page: 3,
        to: 3,
        total: 3,
    };
    let fields = to_display_fields(&page, 2);
    assert_eq!(fields.len(), 2);
    assert_eq!(fields[0].heading, "A (1999)");
    assert_eq!(fields[1].heading, "B (2010)");
    assert!(fields.iter().all(|f| !f.inline));
}

#[test]
fn decode_item_from_built_json() {
    let v = JsonValue::Object(vec![
        JsonMember {
            key: "id".to_string(),
            value: JsonValue::Number(JsonNumber { text: "3".to_string(), whole: Some(3) }),
        },
        JsonMember { key: "title".to_string(), value: JsonValue::Text("Mushishi".to_string()) },
    ]);
    let it = decode_item(&v).unwrap();
    assert_eq!(it.id, 3);
    assert_eq!(it.title, "Mushishi");
    let no_title = JsonValue::Object(vec![JsonMember {
        key: "id".to_string(),
        value: JsonValue::Number(JsonNumber { text: "3".to_string(), whole: Some(3) }),
    }]);
    assert!(matches!(decode_item(&no_title), Err(FetchError::DecodeError(_))));
}

#[test]
fn id_out_of_range_is_a_decode_error() {
    let body = r#"{"data":[{"id":4294967296,"title":"Big"}]}"#;
    assert!(matches!(search_page_from_body(body), Err(FetchError::DecodeError(_))));
}

#[test]
fn fields_from_parsed_json() {
    let v = parse_json(NARUTO).unwrap();
    let fields = fields_from_json(&v, 4).unwrap();
    assert_eq!(fields[0].heading, "Naruto (2002)");
}

#[test]
fn empty_media_is_no_results() {
    let body = media_body("");
    assert!(matches!(media_summary_from_body(&body), Err(FetchError::NoResultsError)));
    let v = parse_json(&body).unwrap();
    assert!(matches!(media_summary(&v), Err(FetchError::NoResultsError)));
    assert!(matches!(first_summary(&Vec::new()), Err(FetchError::NoResultsError)));
}

#[test]
fn media_summary_cleans_title_and_description() {
    let body = media_body(
        r#"{"id":20,"title":{"romaji":"\"Naruto\"","english":"Naruto","native":"ナルト"},"type":"ANIME","description":"First<br>Second\\nThird \"quoted\""}"#,
    );
    let s = media_summary_from_body(&body).unwrap();
    assert_eq!(s.id, 20);
    assert_eq!(s.title, "Naruto");
    assert_eq!(s.description, "First\nSecond\nThird quoted");
}

#[test]
fn media_without_page_is_a_decode_error() {
    let body = r#"{"data":{"media":[]}}"#;
    assert!(matches!(media_summary_from_body(body), Err(FetchError::DecodeError(_))));
}

#[test]
fn normalization_replaces_breaks_and_quotes() {
    assert_eq!(normalize_description("a<br>b\\nc\"d\""), "a\nb\ncd");
    assert_eq!(normalize_description(""), "");
    assert_eq!(normalize_description("<br><br>"), "\n\n");
}

#[test]
fn normalization_twice_is_once() {
    for s in ["plain text", "a<br>b", "x\\ny", "say \"hi\"", "<br>\\n\"", "ünï<br>cödé"] {
        let once = normalize_description(s);
        assert_eq!(normalize_description(&once), once);
    }
}

#[test]
fn strip_quotes_removes_only_quotes() {
    assert_eq!(strip_quotes("\"a\" \"b\""), "a b");
    assert_eq!(strip_quotes("none"), "none");
}

#[test]
fn graphql_body_quotes_the_search() {
    let body = graphql_body("Naruto \"Shippuden\"");
    assert!(body.starts_with("{\"query\":\"query ($page: Int"));
    assert!(body.ends_with(",\"variables\":{\"page\":1,\"perPage\":1,\"search\":\"Naruto \\\"Shippuden\\\"\"}}"));
    let expected = format!(
        "{{\"query\":{},\"variables\":{{\"page\":1,\"perPage\":1,\"search\":\"Naruto \\\"Shippuden\\\"\"}}}}",
        serde_json::Value::String(MEDIA_QUERY.to_string())
    );
    assert_eq!(body, expected);
    let parsed: serde_json::Value = serde_json::from_str(&body).unwrap();
    assert_eq!(parsed["variables"]["search"], "Naruto \"Shippuden\"");
    assert_eq!(parsed["query"], MEDIA_QUERY);
}

#[test]
fn search_parameters_name_the_query() {
    let p = search_parameters("one piece");
    assert_eq!(p, vec![("m".to_string(), "search".to_string()), ("q".to_string(), "one piece".to_string())]);
}

#[test]
fn media_missing_description_is_a_decode_error() {
    let body = media_body(
        r#"{"id":20,"title":{"romaji":"Naruto","english":"Naruto","native":"ナルト"},"type":"ANIME"}"#,
    );
    assert!(matches!(media_summary_from_body(&body), Err(FetchError::DecodeError(_))));
}

#[test]
fn media_null_title_script_is_a_decode_error() {
    let body = media_body(
        r#"{"id":20,"title":{"romaji":"Naruto","english":null,"native":"ナルト"},"type":"ANIME","description":"d"}"#,
    );
    assert!(matches!(media_summary_from_body(&body), Err(FetchError::DecodeError(_))));
}

#[test]
fn quotes_are_dropped_before_breaks_are_read() {
    assert_eq!(normalize_description("<b\"r>"), "\n");
    assert_eq!(normalize_description("\\\"n"), "\n");
    let once = normalize_description("<b\"r>");
    assert_eq!(normalize_description(&once), once);
}

#[test]
fn graphql_body_escapes_control_characters() {
    let body = graphql_body("a\u{1}b\tc\\");
    assert!(body.ends_with("\"search\":\"a\\u0001b\\tc\\\\\"}}"));
}

#[test]
fn session_fields_number_every_hit() {
    let page = SearchResultPage {
        data: vec![item(5, "A", 1999), item(6, "B", 2010)],
        from: 1,
        last_page: 1,
        per_page: 2,
        to: 2,
        total: 2,
    };
    let fields = session_fields(&page);
    assert_eq!(fields.len(), 2);
    assert_eq!(fields[0].heading, "A (1999)");
    assert_eq!(fields[0].body, "Watch: [animepahe](https://animepahe.com/a/5)\n0");
    assert_eq!(fields[1].body, "Watch: [animepahe](https://animepahe.com/a/6)\n1");
    assert!(!fields[1].inline);
}
