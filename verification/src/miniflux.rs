//! The feed source: what to ask of it, and what its answers hold.

use crate::entry::{entries_of, entry_views, Entry, EntryView};
use crate::http::{
    answer, no_pairs, pair, pair_views, HttpError, HttpErrorView, Method, Request, RequestView,
    Response,
};
use crate::json::{decoded, rendered, text_member, view_of, views, Json, JsonView};
use crate::text::{decimal, decimal_text, signed_decimal, signed_decimal_text};
use vstd::prelude::*;

verus! {

/// Access to a feed source: its host and the token that it asks for.
#[derive(Debug, PartialEq, Eq)]
pub struct MinifluxClient {
    pub url: String,
    pub token: String,
}

/// The mathematical model of a [`MinifluxClient`].
pub struct MinifluxView {
    pub url: Seq<char>,
    pub token: Seq<char>,
}

impl View for MinifluxClient {
    type V = MinifluxView;

    open spec fn view(&self) -> MinifluxView {
        MinifluxView { url: self.url@, token: self.token@ }
    }
}

impl Clone for MinifluxClient {
    fn clone(&self) -> (copy: MinifluxClient)
        ensures
            copy == *self,
    {
        MinifluxClient { url: self.url.clone(), token: self.token.clone() }
    }
}

/// The header that carries the token.
pub open spec fn token_header(client: MinifluxView) -> Seq<(Seq<char>, Seq<char>)> {
    seq![("X-Auth-Token"@, client.token)]
}

/// The parameter that asks for unread entries only.
pub open spec fn unread_only() -> Seq<(Seq<char>, Seq<char>)> {
    seq![("status"@, "unread"@)]
}

/// The parameters that ask for unread entries, at most `limit` of them where
/// there is a limit.
pub open spec fn unread_up_to(limit: Option<u64>) -> Seq<(Seq<char>, Seq<char>)> {
    match limit {
        Some(most) => seq![("status"@, "unread"@), ("limit"@, decimal(most as nat))],
        None => unread_only(),
    }
}

/// A request to the feed source at `path`, with the token and without a
/// body.
pub open spec fn plain_request(
    client: MinifluxView,
    method: Method,
    path: Seq<char>,
    query: Seq<(Seq<char>, Seq<char>)>,
) -> RequestView {
    RequestView {
        method,
        url: "https://"@ + client.url + path,
        headers: token_header(client),
        query,
        body: None,
    }
}

/// The request for the list of categories.
pub open spec fn categories_request(client: MinifluxView) -> RequestView {
    plain_request(client, Method::Get, "/v1/categories"@, Seq::empty())
}

/// The request for the unread entries of one category.
pub open spec fn category_entries_request(client: MinifluxView, category_id: i32) -> RequestView {
    plain_request(
        client,
        Method::Get,
        "/v1/categories/"@ + signed_decimal(category_id as int) + "/entries"@,
        unread_only(),
    )
}

/// The request for the unread entries.
pub open spec fn entries_request(client: MinifluxView, limit: Option<u64>) -> RequestView {
    plain_request(client, Method::Get, "/v1/entries"@, unread_up_to(limit))
}

/// The request to refresh all feeds.
pub open spec fn refresh_request(client: MinifluxView) -> RequestView {
    plain_request(client, Method::Put, "/v1/feeds/refresh"@, Seq::empty())
}

/// The request for the full content of one entry.
pub open spec fn content_request(client: MinifluxView, entry_id: u64) -> RequestView {
    plain_request(
        client,
        Method::Get,
        "/v1/entries/"@ + decimal(entry_id as nat) + "/fetch-content"@,
        Seq::empty(),
    )
}

/// The headers of a request that carries a body.
pub open spec fn body_headers(client: MinifluxView) -> Seq<(Seq<char>, Seq<char>)> {
    seq![("X-Auth-Token"@, client.token), ("Content-Type"@, "application/json"@)]
}

/// A list of identifiers as a JSON array of numbers.
pub open spec fn id_list(entry_ids: Seq<u64>) -> JsonView {
    JsonView::Array(Seq::new(entry_ids.len(), |i: int| JsonView::Number(Some(entry_ids[i]))))
}

/// The document that changes the status of entries to `read`: the entries
/// under `entry_ids`, the status under `status`.
pub open spec fn status_change(entry_ids: Seq<u64>) -> JsonView {
    JsonView::Object(seq![("entry_ids"@, id_list(entry_ids)), text_member("status"@, "read"@)])
}

/// The request to mark entries as read: exactly `entry_ids`, with the
/// status `read`.
pub open spec fn mark_request(client: MinifluxView, entry_ids: Seq<u64>) -> RequestView {
    RequestView {
        method: Method::Put,
        url: "https://"@ + client.url + "/v1/entries"@,
        headers: body_headers(client),
        query: Seq::empty(),
        body: Some(rendered(status_change(entry_ids))),
    }
}

/// The entries that a decoded listing holds: those of its member `entries`,
/// which has to be an array.
pub open spec fn listing_in(doc: Option<JsonView>) -> Option<Seq<EntryView>> {
    match doc {
        Some(json) => match json.items_at("entries"@) {
            Some(items) => Some(entries_of(items)),
            None => None,
        },
        None => None,
    }
}

/// The full content that a decoded answer holds: its member `content`, which
/// has to be a string.
pub open spec fn content_in(doc: Option<JsonView>) -> Option<Seq<char>> {
    match doc {
        Some(json) => json.text_at("content"@),
        None => None,
    }
}

/// The categories that a decoded answer holds: its elements, as it has to be
/// an array.
pub open spec fn categories_in(doc: Option<JsonView>) -> Option<Seq<JsonView>> {
    match doc {
        Some(json) => json.items(),
        None => None,
    }
}

/// The model of a list of entries or an error.
pub open spec fn entries_result_view(outcome: Result<Vec<Entry>, HttpError>) -> Result<
    Seq<EntryView>,
    HttpErrorView,
> {
    match outcome {
        Ok(entries) => Ok(entry_views(entries@)),
        Err(error) => Err(error@),
    }
}

/// The model of a list of documents or an error.
pub open spec fn documents_result_view(outcome: Result<Vec<Json>, HttpError>) -> Result<
    Seq<JsonView>,
    HttpErrorView,
> {
    match outcome {
        Ok(list) => Ok(views(list@)),
        Err(error) => Err(error@),
    }
}

/// The model of nothing or an error.
pub open spec fn unit_result_view(outcome: Result<(), HttpError>) -> Result<(), HttpErrorView> {
    match outcome {
        Ok(_) => Ok(()),
        Err(error) => Err(error@),
    }
}

impl MinifluxClient {
    /// Access to the feed source at host `url` with `token`.
    pub fn new(url: String, token: String) -> (client: MinifluxClient)
        ensures
            client.url == url,
            client.token == token,
    {
        MinifluxClient { url, token }
    }

    fn request(&self, method: Method, path: &str, query: Vec<(String, String)>) -> (request:
        Request)
        ensures
            request@ == plain_request(self@, method, path@, pair_views(query@)),
    {
        let mut url = String::from_str("https://");
        url.append(self.url.as_str());
        url.append(path);
        let mut headers: Vec<(String, String)> = Vec::new();
        headers.push(pair("X-Auth-Token", self.token.as_str()));
        assert(pair_views(headers@) =~= token_header(self@));
        Request { method, url, headers, query, body: None }
    }

    fn unread(limit: Option<u64>) -> (query: Vec<(String, String)>)
        ensures
            pair_views(query@) == unread_up_to(limit),
    {
        let mut query: Vec<(String, String)> = Vec::new();
        query.push(pair("status", "unread"));
        match limit {
            Some(most) => {
                let digits = decimal_text(most);
                query.push(pair("limit", digits.as_str()));
            },
            None => {
            },
        }
        query
    }

    /// Asks for the list of categories.
    pub fn get_categories(&self) -> (request: Request)
        ensures
            request@ == categories_request(self@),
    {
        self.request(Method::Get, "/v1/categories", no_pairs())
    }

    /// Asks for the unread entries of the category `category_id`.
    pub fn get_category_entries(&self, category_id: i32) -> (request: Request)
        ensures
            request@ == category_entries_request(self@, category_id),
    {
        let mut path = String::from_str("/v1/categories/");
        path.append(signed_decimal_text(category_id).as_str());
        path.append("/entries");
        self.request(Method::Get, path.as_str(), Self::unread(None))
    }

    /// Asks for the unread entries, at most `limit` of them where there is a
    /// limit.
    pub fn get_entries(&self, limit: Option<u64>) -> (request: Request)
        ensures
            request@ == entries_request(self@, limit),
    {
        self.request(Method::Get, "/v1/entries", Self::unread(limit))
    }

    /// Asks the feed source to refresh all feeds.
    pub fn refresh_all_feeds(&self) -> (request: Request)
        ensures
            request@ == refresh_request(self@),
    {
        self.request(Method::Put, "/v1/feeds/refresh", no_pairs())
    }

    /// Asks for the full content of the entry `entry_id`.
    pub fn get_content(&self, entry_id: u64) -> (request: Request)
        ensures
            request@ == content_request(self@, entry_id),
    {
        let mut path = String::from_str("/v1/entries/");
        path.append(decimal_text(entry_id).as_str());
        path.append("/fetch-content");
        self.request(Method::Get, path.as_str(), no_pairs())
    }

    /// Asks to have the entry `entry_id` marked as read.
    pub fn mark_as_read(&self, entry_id: u64) -> (request: Request)
        ensures
            request@ == mark_request(self@, seq![entry_id]),
    {
        let mut entry_ids: Vec<u64> = Vec::new();
        entry_ids.push(entry_id);
        self.mark_as_read_some(entry_ids)
    }

    /// Asks to have the entries `entry_ids` marked as read: these and no
    /// other, in this order.
    pub fn mark_as_read_some(&self, entry_ids: Vec<u64>) -> (request: Request)
        ensures
            request@ == mark_request(self@, entry_ids@),
    {
        let mut url = String::from_str("https://");
        url.append(self.url.as_str());
        url.append("/v1/entries");
        let mut headers: Vec<(String, String)> = Vec::new();
        headers.push(pair("X-Auth-Token", self.token.as_str()));
        headers.push(pair("Content-Type", "application/json"));
        assert(pair_views(headers@) =~= body_headers(self@));
        let mut numbers: Vec<Json> = Vec::new();
        let mut i: usize = 0;
        while i < entry_ids.len()
            invariant
                i <= entry_ids.len(),
                numbers.len() == i,
                forall|j: int|
                    0 <= j < i ==> (#[trigger] numbers[j])@ == JsonView::Number(Some(entry_ids[j])),
            decreases entry_ids.len() - i,
        {
            numbers.push(Json::number(entry_ids[i]));
            i += 1;
        }
        assert(views(numbers@) =~= id_list(entry_ids@)->Array_0);
        let mut members: Vec<(String, Json)> = Vec::new();
        members.push((String::from_str("entry_ids"), Json::array(numbers)));
        members.push(Json::text_member("status", "read"));
        let document = Json::object(members);
        assert(document@ == status_change(entry_ids@)) by {
            assert(document@->Object_0 =~= status_change(entry_ids@)->Object_0);
        }
        let body = Some(document.render());
        Request { method: Method::Put, url, headers, query: no_pairs(), body }
    }

    /// The entries of a decoded listing; `None` stands for a body that did
    /// not decode.
    pub fn entries_in(doc: &Option<Json>) -> (found: Option<Vec<Entry>>)
        ensures
            match found {
                Some(entries) => listing_in(view_of(*doc)) == Some(entry_views(entries@)),
                None => listing_in(view_of(*doc)) is None,
            },
    {
        match doc {
            Some(json) => match json.get("entries") {
                Some(listed) => match listed.as_array() {
                    Some(items) => Some(Entry::list_from_json(items)),
                    None => None,
                },
                None => None,
            },
            None => None,
        }
    }

    /// The full content in a decoded answer; `None` stands for a body that
    /// did not decode.
    pub fn content_of(doc: &Option<Json>) -> (found: Option<String>)
        ensures
            match found {
                Some(text) => content_in(view_of(*doc)) == Some(text@),
                None => content_in(view_of(*doc)) is None,
            },
    {
        match doc {
            Some(json) => match json.get("content") {
                Some(value) => match value.as_text() {
                    Some(text) => Some(text.clone()),
                    None => None,
                },
                None => None,
            },
            None => None,
        }
    }

    /// What came back for a request that asks for nothing but to be carried
    /// out, as those to refresh the feeds and to mark entries are: success
    /// is a status of success, whatever the body.
    pub fn read_done(response: &Response) -> (outcome: Result<(), HttpError>)
        ensures
            unit_result_view(outcome) == answer(response@, Some(())),
    {
        if response.succeeded() {
            Ok(())
        } else {
            Err(HttpError::Rejected { status: response.status, body: response.body.clone() })
        }
    }

    /// The entries that came back for a request for unread entries.
    ///
    /// A status that is not one of success is a rejection, and a body that
    /// does not decode to an object with an array `entries` is unreadable;
    /// both keep the body. Everything else is a list of entries, also an
    /// empty one.
    pub fn read_entries(response: &Response) -> (outcome: Result<Vec<Entry>, HttpError>)
        ensures
            entries_result_view(outcome) == answer(response@, listing_in(decoded(response@.body))),
    {
        if !response.succeeded() {
            return Err(
                HttpError::Rejected { status: response.status, body: response.body.clone() },
            );
        }
        let doc = Json::parse(response.body.as_str());
        match Self::entries_in(&doc) {
            Some(entries) => Ok(entries),
            None => Err(HttpError::Unreadable { body: response.body.clone() }),
        }
    }

    /// The full content that came back for a request for it.
    pub fn read_content(response: &Response) -> (outcome: Result<String, HttpError>)
        ensures
            crate::http::text_result_view(outcome) == answer(
                response@,
                content_in(decoded(response@.body)),
            ),
    {
        if !response.succeeded() {
            return Err(
                HttpError::Rejected { status: response.status, body: response.body.clone() },
            );
        }
        let doc = Json::parse(response.body.as_str());
        match Self::content_of(&doc) {
            Some(text) => Ok(text),
            None => Err(HttpError::Unreadable { body: response.body.clone() }),
        }
    }

    /// The categories that came back for a request for them, each as the
    /// feed source describes it.
    pub fn read_categories(response: &Response) -> (outcome: Result<Vec<Json>, HttpError>)
        ensures
            documents_result_view(outcome) == answer(
                response@,
                categories_in(decoded(response@.body)),
            ),
    {
        if !response.succeeded() {
            return Err(
                HttpError::Rejected { status: response.status, body: response.body.clone() },
            );
        }
        let found = match Json::parse(response.body.as_str()) {
            Some(json) => json.into_array(),
            None => None,
        };
        match found {
            Some(list) => Ok(list),
            None => Err(HttpError::Unreadable { body: response.body.clone() }),
        }
    }
}

} // verus!
