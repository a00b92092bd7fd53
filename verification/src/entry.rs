//! Feed entries, as the feed source lists them.

use crate::json::{views, Json, JsonView};
use vstd::prelude::*;

verus! {

/// One unread item of the feed source.
///
/// `content` is the short body that the listing carries. Whether an entry
/// has been read is recorded by the feed source alone and is not kept here.
#[derive(Debug, PartialEq, Eq)]
pub struct Entry {
    pub id: u64,
    pub title: String,
    pub url: String,
    pub content: String,
    pub author: String,
    pub feed_title: String,
    pub published_at: String,
}

/// The mathematical model of an [`Entry`].
pub struct EntryView {
    pub id: u64,
    pub title: Seq<char>,
    pub url: Seq<char>,
    pub content: Seq<char>,
    pub author: Seq<char>,
    pub feed_title: Seq<char>,
    pub published_at: Seq<char>,
}

impl View for Entry {
    type V = EntryView;

    open spec fn view(&self) -> EntryView {
        EntryView {
            id: self.id,
            title: self.title@,
            url: self.url@,
            content: self.content@,
            author: self.author@,
            feed_title: self.feed_title@,
            published_at: self.published_at@,
        }
    }
}

impl Clone for Entry {
    fn clone(&self) -> (copy: Entry)
        ensures
            copy == *self,
    {
        Entry {
            id: self.id,
            title: self.title.clone(),
            url: self.url.clone(),
            content: self.content.clone(),
            author: self.author.clone(),
            feed_title: self.feed_title.clone(),
            published_at: self.published_at.clone(),
        }
    }
}

/// The models of a list of entries, in order.
pub open spec fn entry_views(entries: Seq<Entry>) -> Seq<EntryView> {
    Seq::new(entries.len(), |i: int| entries[i]@)
}

/// The identifiers of a list of entries, in order.
pub open spec fn entry_ids(entries: Seq<EntryView>) -> Seq<u64> {
    Seq::new(entries.len(), |i: int| entries[i].id)
}

/// A text field as listed, or `fallback` where it is missing or no string.
pub open spec fn text_or(found: Option<Seq<char>>, fallback: Seq<char>) -> Seq<char> {
    match found {
        Some(text) => text,
        None => fallback,
    }
}

/// The title of the feed that a listed entry belongs to: member `title` of
/// member `feed`.
pub open spec fn listed_feed_title(json: JsonView) -> Option<Seq<char>> {
    match json.member("feed"@) {
        Some(feed) => feed.text_at("title"@),
        None => None,
    }
}

/// The entry that a listed JSON value stands for. A field that is missing or
/// of the wrong kind takes its placeholder; a missing identifier is 0.
pub open spec fn entry_of(json: JsonView) -> EntryView {
    EntryView {
        id: match json.unsigned_at("id"@) {
            Some(id) => id,
            None => 0,
        },
        title: text_or(json.text_at("title"@), "No title"@),
        url: text_or(json.text_at("url"@), "No URL"@),
        content: text_or(json.text_at("content"@), "No content"@),
        author: text_or(json.text_at("author"@), "No author"@),
        feed_title: text_or(listed_feed_title(json), "No feed title"@),
        published_at: text_or(json.text_at("published_at"@), "No published_at"@),
    }
}

/// The entries that a list of JSON values stands for, one for one.
pub open spec fn entries_of(items: Seq<JsonView>) -> Seq<EntryView> {
    Seq::new(items.len(), |i: int| entry_of(items[i]))
}

/// The string stored under `key` in `json`, or `fallback`.
pub fn field_or(json: &Json, key: &str, fallback: &str) -> (text: String)
    ensures
        text@ == text_or(json@.text_at(key@), fallback@),
{
    match json.get(key) {
        Some(value) => match value.as_text() {
            Some(found) => found.clone(),
            None => String::from_str(fallback),
        },
        None => String::from_str(fallback),
    }
}

impl Entry {
    /// Reads one entry from a value of the feed source's listing. Nothing is
    /// rejected: what is missing takes its placeholder.
    pub fn from_json(json: &Json) -> (entry: Entry)
        ensures
            entry@ == entry_of(json@),
    {
        let id = match json.get("id") {
            Some(value) => match value.as_u64() {
                Some(id) => id,
                None => 0,
            },
            None => 0,
        };
        let feed_title = match json.get("feed") {
            Some(feed) => field_or(feed, "title", "No feed title"),
            None => String::from_str("No feed title"),
        };
        Entry {
            id,
            title: field_or(json, "title", "No title"),
            url: field_or(json, "url", "No URL"),
            content: field_or(json, "content", "No content"),
            author: field_or(json, "author", "No author"),
            feed_title,
            published_at: field_or(json, "published_at", "No published_at"),
        }
    }

    /// Reads every entry of a listing, in the listing's order.
    pub fn list_from_json(items: &Vec<Json>) -> (entries: Vec<Entry>)
        ensures
            entry_views(entries@) == entries_of(views(items@)),
    {
        let mut entries: Vec<Entry> = Vec::new();
        let mut i: usize = 0;
        while i < items.len()
            invariant
                i <= items.len(),
                entries.len() == i,
                forall|j: int| 0 <= j < i ==> (#[trigger] entries[j])@ == entry_of(items[j]@),
            decreases items.len() - i,
        {
            entries.push(Entry::from_json(&items[i]));
            i += 1;
        }
        entries
    }
}

} // verus!
