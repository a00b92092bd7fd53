use feed_relay::markup::{format_digest, format_entry, format_item, no_news_notice};
use feed_relay::{DigestItem, Entry, Markup};

fn item(url: &str, title: &str, summary: &str) -> DigestItem {
    DigestItem { url: url.to_string(), title: title.to_string(), summary: summary.to_string() }
}

fn entry() -> Entry {
    Entry {
        id: 7,
        title: "A".to_string(),
        url: "u1".to_string(),
        content: "short".to_string(),
        author: "Ann".to_string(),
        feed_title: "F".to_string(),
        published_at: "2025-04-29".to_string(),
    }
}

#[test]
fn an_item_in_html() {
    assert_eq!(
        format_item(Markup::Html, &item("u1", "A", "s1")),
        "<h3><a href=\"u1\">A</a></h3><p>s1</p><br>"
    );
}

#[test]
fn an_item_in_markdown() {
    assert_eq!(
        format_item(Markup::Markdown, &item("https://atareao.es", "atareao.es", "Origen")),
        "*[atareao.es](https://atareao.es)*\nOrigen\n\n"
    );
}

#[test]
fn a_digest_is_its_items_in_order() {
    let items = vec![item("u1", "A", "s1"), item("u2", "B", "s2")];
    assert_eq!(
        format_digest(Markup::Html, &items),
        "<h3><a href=\"u1\">A</a></h3><p>s1</p><br><h3><a href=\"u2\">B</a></h3><p>s2</p><br>"
    );
    assert_eq!(format_digest(Markup::Markdown, &items), "*[A](u1)*\ns1\n\n*[B](u2)*\ns2\n\n");
}

#[test]
fn a_digest_without_items_is_empty() {
    assert_eq!(format_digest(Markup::Html, &vec![]), "");
    assert_eq!(format_digest(Markup::Markdown, &vec![]), "");
}

#[test]
fn an_entry_in_html() {
    assert_eq!(
        format_entry(Markup::Html, &entry(), "<p>long</p>"),
        "<h3><a href=\"u1\">A</a></h3><p><em>F | Ann | 2025-04-29</em></p><p>short</p>\
         <details><summary>Full content</summary><p>long</p></details><br>"
    );
}

#[test]
fn an_entry_in_markdown() {
    assert_eq!(
        format_entry(Markup::Markdown, &entry(), "long"),
        "*[A](u1)*\n_F | Ann | 2025-04-29_\nshort\n\nlong\n\n"
    );
}

#[test]
fn an_entry_without_full_content() {
    assert_eq!(
        format_entry(Markup::Html, &entry(), ""),
        "<h3><a href=\"u1\">A</a></h3><p><em>F | Ann | 2025-04-29</em></p><p>short</p>\
         <details><summary>Full content</summary></details><br>"
    );
}

#[test]
fn field_values_are_inserted_as_they_are() {
    assert_eq!(
        format_item(Markup::Html, &item("u?a=1&b=2", "<b>A</b>", "x < y")),
        "<h3><a href=\"u?a=1&b=2\"><b>A</b></a></h3><p>x < y</p><br>"
    );
}

#[test]
fn the_notice_is_fixed() {
    assert_eq!(no_news_notice(), "No hay nuevas noticias");
}
