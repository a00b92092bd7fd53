use feed_relay::{Entry, Json};

fn text(value: &str) -> Json {
    Json::Text(value.to_string())
}

fn member(key: &str, value: Json) -> (String, Json) {
    (key.to_string(), value)
}

fn listed(id: u64, title: &str, url: &str) -> Json {
    Json::Object(vec![
        member("id", Json::Number(Some(id))),
        member("title", text(title)),
        member("url", text(url)),
        member("content", text("<p>body</p>")),
        member("author", text("Ann")),
        member("feed", Json::Object(vec![member("title", text("The Feed"))])),
        member("published_at", text("2025-04-29T10:00:00Z")),
    ])
}

#[test]
fn an_entry_is_read_field_by_field() {
    let entry = Entry::from_json(&listed(7, "A", "u1"));
    let expected = Entry {
        id: 7,
        title: "A".to_string(),
        url: "u1".to_string(),
        content: "<p>body</p>".to_string(),
        author: "Ann".to_string(),
        feed_title: "The Feed".to_string(),
        published_at: "2025-04-29T10:00:00Z".to_string(),
    };
    assert_eq!(entry, expected);
}

#[test]
fn an_entry_without_a_title_has_the_placeholder() {
    let json = Json::Object(vec![
        member("id", Json::Number(Some(3))),
        member("url", text("u")),
    ]);
    let entry = Entry::from_json(&json);
    assert_eq!(entry.title, "No title");
    assert_eq!(entry.id, 3);
    assert_eq!(entry.url, "u");
}

#[test]
fn every_missing_field_has_its_placeholder() {
    let entry = Entry::from_json(&Json::Object(vec![]));
    let expected = Entry {
        id: 0,
        title: "No title".to_string(),
        url: "No URL".to_string(),
        content: "No content".to_string(),
        author: "No author".to_string(),
        feed_title: "No feed title".to_string(),
        published_at: "No published_at".to_string(),
    };
    assert_eq!(entry, expected);
}

#[test]
fn a_field_of_the_wrong_kind_has_its_placeholder() {
    let json = Json::Object(vec![
        member("id", text("7")),
        member("title", Json::Number(Some(1))),
        member("url", Json::Null),
        member("feed", text("The Feed")),
    ]);
    let entry = Entry::from_json(&json);
    assert_eq!(entry.id, 0);
    assert_eq!(entry.title, "No title");
    assert_eq!(entry.url, "No URL");
    assert_eq!(entry.feed_title, "No feed title");
}

#[test]
fn a_feed_without_a_title_has_the_placeholder() {
    let json = Json::Object(vec![member("feed", Json::Object(vec![]))]);
    assert_eq!(Entry::from_json(&json).feed_title, "No feed title");
}

#[test]
fn what_is_no_object_is_an_entry_of_placeholders() {
    let entry = Entry::from_json(&Json::Null);
    assert_eq!(entry.id, 0);
    assert_eq!(entry.title, "No title");
}

#[test]
fn a_listing_keeps_its_order() {
    let items = vec![listed(2, "B", "u2"), listed(1, "A", "u1"), Json::Null];
    let entries = Entry::list_from_json(&items);
    assert_eq!(entries.len(), 3);
    assert_eq!(entries[0].id, 2);
    assert_eq!(entries[1].id, 1);
    assert_eq!(entries[1].title, "A");
    assert_eq!(entries[2].title, "No title");
}

#[test]
fn an_empty_listing_has_no_entries() {
    assert_eq!(Entry::list_from_json(&vec![]), vec![]);
}

#[test]
fn a_clone_is_equal() {
    let entry = Entry::from_json(&listed(7, "A", "u1"));
    assert_eq!(entry.clone(), entry);
}
