//! The digest that the summarizer returns for a batch of entries.

use crate::entry::{field_or, text_or, Entry, EntryView};
use crate::json::{view_of, views, Json, JsonView};
use vstd::prelude::*;

verus! {

/// One item of a digest.
#[derive(Debug, Clone, PartialEq, Eq)]
pub struct DigestItem {
    pub url: String,
    pub title: String,
    pub summary: String,
}

/// The mathematical model of a [`DigestItem`].
pub struct DigestItemView {
    pub url: Seq<char>,
    pub title: Seq<char>,
    pub summary: Seq<char>,
}

impl View for DigestItem {
    type V = DigestItemView;

    open spec fn view(&self) -> DigestItemView {
        DigestItemView { url: self.url@, title: self.title@, summary: self.summary@ }
    }
}

/// The models of a list of digest items, in order.
pub open spec fn item_views(items: Seq<DigestItem>) -> Seq<DigestItemView> {
    Seq::new(items.len(), |i: int| items[i]@)
}

/// What the summarizer is given of one entry.
#[derive(Debug, Clone, PartialEq, Eq)]
pub struct SummaryInput {
    pub url: String,
    pub title: String,
    pub feed_title: String,
    pub published_at: String,
    pub author: String,
    pub resume: String,
}

/// The mathematical model of a [`SummaryInput`].
pub struct SummaryInputView {
    pub url: Seq<char>,
    pub title: Seq<char>,
    pub feed_title: Seq<char>,
    pub published_at: Seq<char>,
    pub author: Seq<char>,
    pub resume: Seq<char>,
}

impl View for SummaryInput {
    type V = SummaryInputView;

    open spec fn view(&self) -> SummaryInputView {
        SummaryInputView {
            url: self.url@,
            title: self.title@,
            feed_title: self.feed_title@,
            published_at: self.published_at@,
            author: self.author@,
            resume: self.resume@,
        }
    }
}

/// The models of a list of summarizer inputs, in order.
pub open spec fn input_views(inputs: Seq<SummaryInput>) -> Seq<SummaryInputView> {
    Seq::new(inputs.len(), |i: int| inputs[i]@)
}

/// What the summarizer is given of `entry`: every field but the identifier,
/// the listed content under the name `resume`.
pub open spec fn summary_input_of(entry: EntryView) -> SummaryInputView {
    SummaryInputView {
        url: entry.url,
        title: entry.title,
        feed_title: entry.feed_title,
        published_at: entry.published_at,
        author: entry.author,
        resume: entry.content,
    }
}

/// The batch that the summarizer is given for `entries`, one input for each
/// entry and in the same order.
pub open spec fn batch_of(entries: Seq<EntryView>) -> Seq<SummaryInputView> {
    Seq::new(entries.len(), |i: int| summary_input_of(entries[i]))
}

/// Why a summarizer response gives no digest.
#[derive(Debug, PartialEq, Eq, Clone, Copy, Structural)]
pub enum DigestError {
    /// The response is not a JSON document.
    NotJson,
    /// The document has no member `news`.
    MissingNews,
    /// Member `news` is not an array.
    NewsNotAList,
}

/// The digest item that one element of `news` stands for. A field that is
/// missing or no string is empty.
pub open spec fn item_of(json: JsonView) -> DigestItemView {
    DigestItemView {
        url: text_or(json.text_at("url"@), Seq::empty()),
        title: text_or(json.text_at("title"@), Seq::empty()),
        summary: text_or(json.text_at("summary"@), Seq::empty()),
    }
}

/// The digest items that a list of JSON values stands for, one for one.
pub open spec fn items_of(list: Seq<JsonView>) -> Seq<DigestItemView> {
    Seq::new(list.len(), |i: int| item_of(list[i]))
}

/// The digest that a decoded response holds: the elements of its member
/// `news`, which has to be there and to be an array.
pub open spec fn digest_of(doc: Option<JsonView>) -> Result<Seq<DigestItemView>, DigestError> {
    match doc {
        None => Err(DigestError::NotJson),
        Some(json) => match json.member("news"@) {
            None => Err(DigestError::MissingNews),
            Some(news) => match news.items() {
                None => Err(DigestError::NewsNotAList),
                Some(list) => Ok(items_of(list)),
            },
        },
    }
}

/// The model of the outcome of reading a digest.
pub open spec fn digest_view(outcome: Result<Vec<DigestItem>, DigestError>) -> Result<
    Seq<DigestItemView>,
    DigestError,
> {
    match outcome {
        Ok(items) => Ok(item_views(items@)),
        Err(error) => Err(error),
    }
}

impl SummaryInput {
    /// What the summarizer is given of `entry`.
    pub fn of_entry(entry: &Entry) -> (input: SummaryInput)
        ensures
            input@ == summary_input_of(entry@),
    {
        SummaryInput {
            url: entry.url.clone(),
            title: entry.title.clone(),
            feed_title: entry.feed_title.clone(),
            published_at: entry.published_at.clone(),
            author: entry.author.clone(),
            resume: entry.content.clone(),
        }
    }

    /// The batch that the summarizer is given for `entries`.
    pub fn batch(entries: &Vec<Entry>) -> (inputs: Vec<SummaryInput>)
        ensures
            input_views(inputs@) == batch_of(crate::entry::entry_views(entries@)),
    {
        let mut inputs: Vec<SummaryInput> = Vec::new();
        let mut i: usize = 0;
        while i < entries.len()
            invariant
                i <= entries.len(),
                inputs.len() == i,
                forall|j: int|
                    0 <= j < i ==> (#[trigger] inputs[j])@ == summary_input_of(entries[j]@),
            decreases entries.len() - i,
        {
            inputs.push(SummaryInput::of_entry(&entries[i]));
            i += 1;
        }
        inputs
    }
}

impl DigestItem {
    /// Reads one digest item from an element of `news`.
    pub fn from_json(json: &Json) -> (item: DigestItem)
        ensures
            item@ == item_of(json@),
    {
        proof {
            reveal_strlit("");
            assert(""@ =~= Seq::<char>::empty());
        }
        DigestItem {
            url: field_or(json, "url", ""),
            title: field_or(json, "title", ""),
            summary: field_or(json, "summary", ""),
        }
    }

    /// Reads the digest out of a decoded summarizer response; `None` stands
    /// for a response that did not decode.
    ///
    /// The digest is the list under `news`, item for item and in its order.
    /// An empty list is a digest with no items, not an error.
    pub fn list_from_json(doc: &Option<Json>) -> (outcome: Result<Vec<DigestItem>, DigestError>)
        ensures
            digest_view(outcome) == digest_of(view_of(*doc)),
    {
        let json = match doc {
            Some(json) => json,
            None => {
                return Err(DigestError::NotJson);
            },
        };
        let news = match json.get("news") {
            Some(news) => news,
            None => {
                return Err(DigestError::MissingNews);
            },
        };
        let list = match news.as_array() {
            Some(list) => list,
            None => {
                return Err(DigestError::NewsNotAList);
            },
        };
        let mut items: Vec<DigestItem> = Vec::new();
        let mut i: usize = 0;
        while i < list.len()
            invariant
                i <= list.len(),
                items.len() == i,
                forall|j: int| 0 <= j < i ==> (#[trigger] items[j])@ == item_of(list[j]@),
            decreases list.len() - i,
        {
            items.push(DigestItem::from_json(&list[i]));
            i += 1;
        }
        assert(item_views(items@) =~= items_of(views(list@)));
        Ok(items)
    }

    /// Decodes a summarizer response and reads the digest out of it.
    pub fn list_from_text(text: &str) -> (outcome: Result<Vec<DigestItem>, DigestError>)
        ensures
            digest_view(outcome) == digest_of(crate::json::decoded(text@)),
    {
        let doc = Json::parse(text);
        DigestItem::list_from_json(&doc)
    }
}

} // verus!
