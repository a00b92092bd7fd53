//! Messages in the markup of a chat destination.
//!
//! Every formatted item is a title that links to the item's address,
//! followed by a summary. An entry that is delivered on its own also
//! carries a line on where it comes from and its full content.
//! Field values are inserted as they are.

use crate::digest::{item_views, DigestItem, DigestItemView};
use crate::entry::{Entry, EntryView};
use vstd::prelude::*;

verus! {

/// The markup that a chat destination reads.
#[derive(Debug, Clone, Copy, PartialEq, Eq, Structural)]
pub enum Markup {
    /// HTML, for a room-based destination.
    Html,
    /// Markdown, for a channel-based destination.
    Markdown,
}

/// The notice that is delivered when a digest has no entry to report.
pub open spec fn no_news() -> Seq<char> {
    "No hay nuevas noticias"@
}

/// A linked title and a summary, in HTML.
pub open spec fn html_item(url: Seq<char>, title: Seq<char>, summary: Seq<char>) -> Seq<char> {
    "<h3><a href=\""@ + url + "\">"@ + title + "</a></h3><p>"@ + summary + "</p><br>"@
}

/// A linked title and a summary, in Markdown.
pub open spec fn markdown_item(url: Seq<char>, title: Seq<char>, summary: Seq<char>) -> Seq<
    char,
> {
    "*["@ + title + "]("@ + url + ")*\n"@ + summary + "\n\n"@
}

/// One digest item in `markup`.
pub open spec fn item_markup(markup: Markup, item: DigestItemView) -> Seq<char> {
    match markup {
        Markup::Html => html_item(item.url, item.title, item.summary),
        Markup::Markdown => markdown_item(item.url, item.title, item.summary),
    }
}

/// A whole digest in `markup`: its items one after the other, in order,
/// with nothing between them. A digest without items is the empty message.
pub open spec fn digest_markup(markup: Markup, items: Seq<DigestItemView>) -> Seq<char>
    decreases items.len(),
{
    if items.len() == 0 {
        Seq::empty()
    } else {
        digest_markup(markup, items.drop_last()) + item_markup(markup, items.last())
    }
}

/// An entry with its full content, in HTML: the linked title, the feed,
/// author and date of publication, the listed content as the summary, and
/// the full content in a section that unfolds.
pub open spec fn html_entry(entry: EntryView, full: Seq<char>) -> Seq<char> {
    "<h3><a href=\""@ + entry.url + "\">"@ + entry.title + "</a></h3><p><em>"@ + entry.feed_title
        + " | "@ + entry.author + " | "@ + entry.published_at + "</em></p><p>"@ + entry.content
        + "</p><details><summary>Full content</summary>"@ + full + "</details><br>"@
}

/// An entry with its full content, in Markdown: the linked title, the feed,
/// author and date of publication, the listed content as the summary, and
/// the full content as a paragraph of its own.
pub open spec fn markdown_entry(entry: EntryView, full: Seq<char>) -> Seq<char> {
    "*["@ + entry.title + "]("@ + entry.url + ")*\n_"@ + entry.feed_title + " | "@ + entry.author
        + " | "@ + entry.published_at + "_\n"@ + entry.content + "\n\n"@ + full + "\n\n"@
}

/// One entry with its full content in `markup`.
pub open spec fn entry_markup(markup: Markup, entry: EntryView, full: Seq<char>) -> Seq<char> {
    match markup {
        Markup::Html => html_entry(entry, full),
        Markup::Markdown => markdown_entry(entry, full),
    }
}

/// The notice that is delivered when a digest has no entry to report.
pub fn no_news_notice() -> (notice: String)
    ensures
        notice@ == no_news(),
{
    String::from_str("No hay nuevas noticias")
}

/// Formats one digest item.
pub fn format_item(markup: Markup, item: &DigestItem) -> (text: String)
    ensures
        text@ == item_markup(markup, item@),
{
    match markup {
        Markup::Html => {
            let mut text = String::from_str("<h3><a href=\"");
            text.append(item.url.as_str());
            text.append("\">");
            text.append(item.title.as_str());
            text.append("</a></h3><p>");
            text.append(item.summary.as_str());
            text.append("</p><br>");
            text
        },
        Markup::Markdown => {
            let mut text = String::from_str("*[");
            text.append(item.title.as_str());
            text.append("](");
            text.append(item.url.as_str());
            text.append(")*\n");
            text.append(item.summary.as_str());
            text.append("\n\n");
            text
        },
    }
}

/// Formats a digest as one message.
pub fn format_digest(markup: Markup, items: &Vec<DigestItem>) -> (text: String)
    ensures
        text@ == digest_markup(markup, item_views(items@)),
{
    let ghost all = item_views(items@);
    let mut text = String::new();
    let mut i: usize = 0;
    while i < items.len()
        invariant
            i <= items.len(),
            all == item_views(items@),
            text@ == digest_markup(markup, all.take(i as int)),
        decreases items.len() - i,
    {
        let block = format_item(markup, &items[i]);
        proof {
            let next = all.take(i + 1);
            assert(next.drop_last() =~= all.take(i as int));
        }
        text.append(block.as_str());
        i += 1;
    }
    assert(all.take(i as int) =~= all);
    text
}

/// Formats one entry, with the full content fetched for it, as a message of
/// its own.
pub fn format_entry(markup: Markup, entry: &Entry, full: &str) -> (text: String)
    ensures
        text@ == entry_markup(markup, entry@, full@),
{
    match markup {
        Markup::Html => {
            let mut text = String::from_str("<h3><a href=\"");
            text.append(entry.url.as_str());
            text.append("\">");
            text.append(entry.title.as_str());
            text.append("</a></h3><p><em>");
            text.append(entry.feed_title.as_str());
            text.append(" | ");
            text.append(entry.author.as_str());
            text.append(" | ");
            text.append(entry.published_at.as_str());
            text.append("</em></p><p>");
            text.append(entry.content.as_str());
            text.append("</p><details><summary>Full content</summary>");
            text.append(full);
            text.append("</details><br>");
            text
        },
        Markup::Markdown => {
            let mut text = String::from_str("*[");
            text.append(entry.title.as_str());
            text.append("](");
            text.append(entry.url.as_str());
            text.append(")*\n_");
            text.append(entry.feed_title.as_str());
            text.append(" | ");
            text.append(entry.author.as_str());
            text.append(" | ");
            text.append(entry.published_at.as_str());
            text.append("_\n");
            text.append(entry.content.as_str());
            text.append("\n\n");
            text.append(full);
            text.append("\n\n");
            text
        },
    }
}

} // verus!
