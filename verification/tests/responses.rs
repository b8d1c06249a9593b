use collected_notes::error::ApiError;
use collected_notes::response::{
    created_site_response, links_response, note_response, notes_response, site_response,
    sites_response, text_response, unit_response,
};

#[test]
fn non_success_status_fails_every_operation() {
    let body = || "missing".to_string();
    let expected = ApiError::HttpStatus { status: 404, body: "missing".to_string() };
    assert_eq!(sites_response(404, body()).unwrap_err(), expected);
    assert_eq!(created_site_response(404, body()).unwrap_err(), expected);
    assert_eq!(site_response(404, body()).unwrap_err(), expected);
    assert_eq!(note_response(404, body()).unwrap_err(), expected);
    assert_eq!(notes_response(404, body()).unwrap_err(), expected);
    assert_eq!(links_response(404, body()).unwrap_err(), expected);
    assert_eq!(text_response(404, body()).unwrap_err(), expected);
    assert_eq!(unit_response(404, body()).unwrap_err(), expected);
}

#[test]
fn http_failure_message_carries_status_and_body() {
    let e = ApiError::HttpStatus { status: 404, body: "no such site".to_string() };
    let msg = e.describe();
    assert_eq!(msg, "HTTP error: 404. Body: no such site");
    assert!(msg.contains("404"));
    assert!(msg.contains("no such site"));

    let e2 = ApiError::HttpStatus { status: 500, body: "".to_string() };
    assert_eq!(e2.describe(), "HTTP error: 500. Body: ");
}

#[test]
fn list_sites_tolerates_empty_success_body() {
    let r = sites_response(200, "".to_string()).unwrap();
    assert!(r.is_empty());
    let r2 = sites_response(200, " \n\t ".to_string()).unwrap();
    assert!(r2.is_empty());
}

#[test]
fn create_site_rejects_empty_success_body() {
    let r = created_site_response(200, "".to_string());
    assert_eq!(r.unwrap_err(), ApiError::EmptyBody);
    let r2 = created_site_response(201, " \n ".to_string());
    assert_eq!(r2.unwrap_err(), ApiError::EmptyBody);
    assert_eq!(ApiError::EmptyBody.describe(), "Empty response body");
}

#[test]
fn create_site_decodes_nonempty_success_body() {
    let body = "{\"id\":7,\"name\":\"Demo\",\"site_path\":\"demo\"}".to_string();
    let site = created_site_response(200, body).unwrap();
    assert_eq!(site.id, 7);
    assert_eq!(site.name, "Demo");
    assert_eq!(site.site_path, "demo");
}

#[test]
fn site_is_decoded_from_response() {
    let body = "{\"id\":1,\"name\":\"My Site\",\"site_path\":\"my-site\"}".to_string();
    let site = site_response(200, body).unwrap();
    assert_eq!(site.id, 1);
    assert_eq!(site.name, "My Site");
    assert_eq!(site.site_path, "my-site");

    // Extra fields are ignored, as a lenient record reader leaves them.
    let extra =
        "{\"id\":2,\"name\":\"N\",\"site_path\":\"p\",\"created_at\":\"2020\"}".to_string();
    let site2 = site_response(200, extra).unwrap();
    assert_eq!(site2.id, 2);
}

#[test]
fn sites_list_is_decoded_in_order() {
    let body = "[{\"id\":1,\"name\":\"A\",\"site_path\":\"a\"},{\"id\":2,\"name\":\"B\",\"site_path\":\"b\"}]"
        .to_string();
    let sites = sites_response(200, body).unwrap();
    assert_eq!(sites.len(), 2);
    assert_eq!(sites[0].site_path, "a");
    assert_eq!(sites[1].site_path, "b");
}

#[test]
fn notes_are_decoded_from_responses() {
    let one = "{\"id\":3,\"title\":\"T\",\"body\":\"B\",\"visibility\":\"public\"}".to_string();
    let note = note_response(200, one).unwrap();
    assert_eq!(note.id, 3);
    assert_eq!(note.title, "T");
    assert_eq!(note.body, "B");
    assert_eq!(note.visibility, "public");

    let list = "[{\"id\":3,\"title\":\"T\",\"body\":\"B\",\"visibility\":\"public\"},{\"id\":4,\"title\":\"U\",\"body\":\"C\",\"visibility\":\"private\"}]"
        .to_string();
    let notes = notes_response(200, list).unwrap();
    assert_eq!(notes.len(), 2);
    assert_eq!(notes[1].id, 4);
    assert_eq!(notes[1].visibility, "private");
}

#[test]
fn negative_identifiers_are_read() {
    let body = "{\"id\":-5,\"name\":\"N\",\"site_path\":\"p\"}".to_string();
    let site = site_response(200, body).unwrap();
    assert_eq!(site.id, -5);
}

#[test]
fn notes_list_has_no_empty_body_tolerance() {
    let r = notes_response(200, "".to_string());
    assert!(matches!(r.unwrap_err(), ApiError::Decode { .. }));
}

#[test]
fn links_are_decoded_in_order() {
    let body = "[\"https://a.example\",\"https://b.example\"]".to_string();
    let links = links_response(200, body).unwrap();
    assert_eq!(links, vec!["https://a.example".to_string(), "https://b.example".to_string()]);

    let bad = links_response(200, "[\"x\",3]".to_string());
    assert!(matches!(bad.unwrap_err(), ApiError::Decode { .. }));
}

#[test]
fn text_bodies_pass_through_verbatim() {
    let body = "# Title\n\nSome *markdown*, left as it came.".to_string();
    let r = text_response(200, body.clone()).unwrap();
    assert_eq!(r, body);

    // Even text that happens to be JSON is not parsed.
    let j = "{\"id\":1}".to_string();
    assert_eq!(text_response(200, j.clone()).unwrap(), j);
}

#[test]
fn decode_failures_are_reported_with_a_cause() {
    // An empty body where a record is owed.
    let r = site_response(200, "".to_string());
    match r.unwrap_err() {
        ApiError::Decode { cause } => assert!(!cause.is_empty()),
        other => panic!("expected a decode failure, got {:?}", other),
    }
    // Malformed JSON.
    let r2 = note_response(200, "{oops".to_string());
    assert!(matches!(r2.unwrap_err(), ApiError::Decode { .. }));
    // Well-formed JSON of the wrong shape.
    let r3 = site_response(200, "{\"id\":\"one\",\"name\":\"N\",\"site_path\":\"p\"}".to_string());
    assert!(matches!(r3.unwrap_err(), ApiError::Decode { .. }));
    // An identifier too large for a 32-bit record.
    let r4 = site_response(
        200,
        "{\"id\":4294967296,\"name\":\"N\",\"site_path\":\"p\"}".to_string(),
    );
    assert!(matches!(r4.unwrap_err(), ApiError::Decode { .. }));
    // A list where one element is broken fails as a whole.
    let r5 = sites_response(200, "[{\"id\":1,\"name\":\"A\",\"site_path\":\"a\"},{}]".to_string());
    assert!(matches!(r5.unwrap_err(), ApiError::Decode { .. }));
}

#[test]
fn deletion_checks_only_the_status() {
    assert!(unit_response(204, "".to_string()).is_ok());
    assert!(unit_response(200, "anything at all".to_string()).is_ok());
    let e = unit_response(500, "boom".to_string()).unwrap_err();
    assert_eq!(e, ApiError::HttpStatus { status: 500, body: "boom".to_string() });
}

#[test]
fn success_range_boundaries() {
    assert!(matches!(
        unit_response(199, "x".to_string()).unwrap_err(),
        ApiError::HttpStatus { status: 199, .. }
    ));
    assert!(unit_response(200, "x".to_string()).is_ok());
    assert!(unit_response(299, "x".to_string()).is_ok());
    assert!(matches!(
        unit_response(300, "x".to_string()).unwrap_err(),
        ApiError::HttpStatus { status: 300, .. }
    ));
}
