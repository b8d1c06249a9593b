use collected_notes::client::CollectedNotesClient;
use collected_notes::error::ApiError;
use collected_notes::request::HttpMethod;

fn client() -> CollectedNotesClient {
    CollectedNotesClient::new("https://api.collectednotes.com", "tok-1")
}

#[test]
fn get_sites_request_shape() {
    let c = client();
    let r = c.get_sites();
    assert_eq!(r.method, HttpMethod::Get);
    assert_eq!(r.url, "https://api.collectednotes.com/sites");
    assert!(r.query.is_empty());
    assert!(!r.accept_text_plain);
    assert!(r.json_body.is_none());
    assert_eq!(r.bearer_token, "tok-1");
}

#[test]
fn site_and_note_urls() {
    let c = client();
    assert_eq!(c.get_site("blog").url, "https://api.collectednotes.com/sites/blog");
    assert_eq!(c.get_site("blog").method, HttpMethod::Get);
    assert_eq!(c.delete_site("blog").method, HttpMethod::Delete);
    assert_eq!(c.delete_site("blog").url, "https://api.collectednotes.com/sites/blog");
    assert_eq!(
        c.get_notes_for_site("blog").url,
        "https://api.collectednotes.com/sites/blog/notes"
    );
    assert_eq!(
        c.get_note_by_path("blog", "intro").url,
        "https://api.collectednotes.com/sites/blog/notes/intro"
    );
    assert_eq!(
        c.delete_note_by_path("blog", "intro").url,
        "https://api.collectednotes.com/sites/blog/notes/intro"
    );
    assert_eq!(c.delete_note_by_path("blog", "intro").method, HttpMethod::Delete);
    assert!(c.get_note_by_path("blog", "intro").bearer_token == "tok-1");
}

#[test]
fn rendering_urls_and_accept_header() {
    let c = client();
    let links = c.get_links_from_note("blog", "intro");
    assert_eq!(links.url, "https://api.collectednotes.com/sites/blog/notes/intro/links");
    assert!(!links.accept_text_plain);

    let html = c.get_note_body_as_html("blog", "intro");
    assert_eq!(html.url, "https://api.collectednotes.com/sites/blog/notes/intro/body");
    assert!(!html.accept_text_plain);

    let md = c.get_note_as_markdown("blog", "intro");
    assert_eq!(md.url, "https://api.collectednotes.com/sites/blog/notes/intro.md");
    assert_eq!(md.method, HttpMethod::Get);
    assert!(md.accept_text_plain);
    assert!(md.json_body.is_none());

    let txt = c.get_note_as_plain_text("blog", "intro");
    assert_eq!(txt.url, "https://api.collectednotes.com/sites/blog/notes/intro.txt");
    assert!(txt.accept_text_plain);
    assert_eq!(txt.bearer_token, "tok-1");
}

#[test]
fn search_notes_query_parameters() {
    let c = client();
    let r = c.search_notes("blog", "foo", "fuzzy");
    assert_eq!(r.method, HttpMethod::Get);
    assert_eq!(r.url, "https://api.collectednotes.com/sites/blog/notes/search");
    assert_eq!(
        r.query,
        vec![
            ("term".to_string(), "foo".to_string()),
            ("mode".to_string(), "fuzzy".to_string()),
        ]
    );
    assert!(r.json_body.is_none());
}

#[test]
fn create_site_body_matches_serde_rendering() {
    let c = client();
    let r = c.create_site("demo", "Demo Site");
    let mut m = serde_json::Map::new();
    m.insert(
        "site_path".to_string(),
        serde_json::Value::String("demo".to_string()),
    );
    m.insert(
        "name".to_string(),
        serde_json::Value::String("Demo Site".to_string()),
    );
    let expected = serde_json::to_string(&serde_json::Value::Object(m)).unwrap();
    assert_eq!(r.method, HttpMethod::Post);
    assert_eq!(r.url, "https://api.collectednotes.com/sites");
    assert_eq!(r.json_body.as_deref(), Some(expected.as_str()));
}

#[test]
fn create_site_body_escapes_like_serde() {
    let c = client();
    let tricky = "a \"quoted\" name\nwith\tcontrol \\ chars";
    let r = c.create_site("p", tricky);
    let mut m = serde_json::Map::new();
    m.insert("site_path".to_string(), serde_json::Value::String("p".to_string()));
    m.insert("name".to_string(), serde_json::Value::String(tricky.to_string()));
    let expected = serde_json::to_string(&serde_json::Value::Object(m)).unwrap();
    assert_eq!(r.json_body.as_deref(), Some(expected.as_str()));
}

#[test]
fn note_bodies_match_serde_rendering() {
    let c = client();
    let r = c.create_note_for_site("blog", "hello world", "public");
    let mut m = serde_json::Map::new();
    m.insert(
        "body".to_string(),
        serde_json::Value::String("hello world".to_string()),
    );
    m.insert(
        "visibility".to_string(),
        serde_json::Value::String("public".to_string()),
    );
    let expected = serde_json::to_string(&serde_json::Value::Object(m)).unwrap();
    assert_eq!(r.method, HttpMethod::Post);
    assert_eq!(r.url, "https://api.collectednotes.com/sites/blog/notes");
    assert_eq!(r.json_body.as_deref(), Some(expected.as_str()));

    let u = c.update_note_by_path("blog", "intro", "updated", "private");
    let mut m2 = serde_json::Map::new();
    m2.insert(
        "body".to_string(),
        serde_json::Value::String("updated".to_string()),
    );
    m2.insert(
        "visibility".to_string(),
        serde_json::Value::String("private".to_string()),
    );
    let expected2 = serde_json::to_string(&serde_json::Value::Object(m2)).unwrap();
    assert_eq!(u.method, HttpMethod::Put);
    assert_eq!(u.url, "https://api.collectednotes.com/sites/blog/notes/intro");
    assert_eq!(u.json_body.as_deref(), Some(expected2.as_str()));
}

#[test]
fn update_site_forwards_payload_value() {
    let c = client();
    let r = c.update_site("blog", "{\"name\":\"renamed\"}").unwrap();
    assert_eq!(r.method, HttpMethod::Put);
    assert_eq!(r.url, "https://api.collectednotes.com/sites/blog");
    assert_eq!(r.json_body.as_deref(), Some("{\"name\":\"renamed\"}"));

    // A non-object document is forwarded just the same.
    let arr = c.update_site("blog", "[1,2,3]").unwrap();
    assert_eq!(arr.json_body.as_deref(), Some("[1,2,3]"));

    // Whitespace around the document does not change the value sent.
    let spaced = c.update_site("blog", " {\"name\": \"renamed\"} ").unwrap();
    assert_eq!(spaced.json_body.as_deref(), Some("{\"name\":\"renamed\"}"));
}

#[test]
fn update_site_forwards_numbers_and_nesting() {
    let c = client();
    // The forwarded body is the same value serde_json reads, rendered compactly:
    // integers, fractions, nested objects and arrays all survive.
    for data in [
        "{\"a\": 1, \"b\": [1.5, 2e1], \"c\": {\"d\": null, \"e\": true}}",
        "[-9223372036854775808, 9223372036854775807, 18446744073709551615]",
        "\"just a string\"",
        "3.14159",
    ] {
        let expected = serde_json::to_string(
            &serde_json::from_str::<serde_json::Value>(data).unwrap(),
        )
        .unwrap();
        let r = c.update_site("blog", data).unwrap();
        assert_eq!(r.json_body.as_deref(), Some(expected.as_str()));
    }
}

#[test]
fn update_site_rejects_malformed_payload() {
    let c = client();
    let r = c.update_site("blog", "{not json");
    match r {
        Err(ApiError::InvalidInput { cause }) => assert!(!cause.is_empty()),
        _ => panic!("malformed payload must be rejected before any request"),
    }
}

#[test]
fn client_stores_configuration_verbatim() {
    let c = CollectedNotesClient::new("http://localhost:3000/", "  spaced token  ");
    assert_eq!(c.base_url, "http://localhost:3000/");
    assert_eq!(c.token, "  spaced token  ");
    let r = c.get_sites();
    assert_eq!(r.url, "http://localhost:3000//sites");
    assert_eq!(r.bearer_token, "  spaced token  ");
}
