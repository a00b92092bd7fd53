use feed_relay::{DigestError, DigestItem, Entry, Json, SummaryInput};

fn item(url: &str, title: &str, summary: &str) -> DigestItem {
    DigestItem { url: url.to_string(), title: title.to_string(), summary: summary.to_string() }
}

#[test]
fn a_digest_is_read_item_for_item() {
    let text = "{\"news\":[{\"url\":\"u1\",\"title\":\"A\",\"summary\":\"s1\"},\
                {\"url\":\"u2\",\"title\":\"B\",\"summary\":\"s2\"}]}";
    let digest = DigestItem::list_from_text(text);
    assert_eq!(digest, Ok(vec![item("u1", "A", "s1"), item("u2", "B", "s2")]));
}

#[test]
fn a_response_without_news_is_no_digest() {
    assert_eq!(DigestItem::list_from_text("{\"items\":[]}"), Err(DigestError::MissingNews));
    assert_eq!(DigestItem::list_from_text("{}"), Err(DigestError::MissingNews));
    assert_eq!(DigestItem::list_from_text("[]"), Err(DigestError::MissingNews));
}

#[test]
fn a_response_that_is_no_json_is_no_digest() {
    assert_eq!(DigestItem::list_from_text("Here is your digest"), Err(DigestError::NotJson));
    assert_eq!(DigestItem::list_from_text(""), Err(DigestError::NotJson));
}

#[test]
fn news_that_is_no_list_is_no_digest() {
    assert_eq!(DigestItem::list_from_text("{\"news\":\"none\"}"), Err(DigestError::NewsNotAList));
    assert_eq!(DigestItem::list_from_text("{\"news\":{}}"), Err(DigestError::NewsNotAList));
}

#[test]
fn an_empty_list_is_a_digest_without_items() {
    assert_eq!(DigestItem::list_from_text("{\"news\":[]}"), Ok(vec![]));
}

#[test]
fn a_missing_field_of_an_item_is_empty() {
    let digest = DigestItem::list_from_text("{\"news\":[{\"title\":\"A\"},{\"url\":7},3]}");
    assert_eq!(digest, Ok(vec![item("", "A", ""), item("", "", ""), item("", "", "")]));
}

#[test]
fn a_decoded_response_is_read_the_same_way() {
    let doc = Json::parse("{\"news\":[{\"url\":\"u\",\"title\":\"t\",\"summary\":\"s\"}]}");
    assert_eq!(DigestItem::list_from_json(&doc), Ok(vec![item("u", "t", "s")]));
    assert_eq!(DigestItem::list_from_json(&None), Err(DigestError::NotJson));
    assert_eq!(DigestItem::list_from_json(&Some(Json::Null)), Err(DigestError::MissingNews));
}

#[test]
fn the_summarizer_is_given_every_field_but_the_identifier() {
    let entry = Entry {
        id: 7,
        title: "A".to_string(),
        url: "u1".to_string(),
        content: "body".to_string(),
        author: "Ann".to_string(),
        feed_title: "F".to_string(),
        published_at: "today".to_string(),
    };
    let expected = SummaryInput {
        url: "u1".to_string(),
        title: "A".to_string(),
        feed_title: "F".to_string(),
        published_at: "today".to_string(),
        author: "Ann".to_string(),
        resume: "body".to_string(),
    };
    assert_eq!(SummaryInput::of_entry(&entry), expected);
    let batch = SummaryInput::batch(&vec![entry.clone(), entry]);
    assert_eq!(batch, vec![expected.clone(), expected]);
}
