//! Between the pipeline and the outside: the request that carries out an
//! action, and the event that a response amounts to.

use crate::entry::EntryView;
use crate::http::{answer, is_success, Request, RequestView, Response, ResponseView};
use crate::json::decoded;
use crate::miniflux::{
    content_in, content_request, entries_request, listing_in, mark_request,
    refresh_request, MinifluxClient, MinifluxView,
};
use crate::model::{completion_in, summary_request, Model, ModelView};
use crate::pipeline::{Action, ActionView, Event, EventView};
use crate::target::{delivery_request, DeliveryTarget, DeliveryTargetView};
use vstd::prelude::*;

verus! {

/// Everything outside that a pipeline works with: the feed source, the chat
/// destination and, where batches are summarized, the summarizer.
#[derive(Debug, Clone, PartialEq, Eq)]
pub struct Adapters {
    pub feed: MinifluxClient,
    pub target: DeliveryTarget,
    pub summarizer: Option<Model>,
}

/// The mathematical model of [`Adapters`].
pub struct AdaptersView {
    pub feed: MinifluxView,
    pub target: DeliveryTargetView,
    pub summarizer: Option<ModelView>,
}

impl View for Adapters {
    type V = AdaptersView;

    open spec fn view(&self) -> AdaptersView {
        AdaptersView {
            feed: self.feed@,
            target: self.target@,
            summarizer: match self.summarizer {
                Some(model) => Some(model@),
                None => None,
            },
        }
    }
}

/// The request that carries out an action. Pausing is no request, and
/// neither is summarizing where there is no summarizer.
pub open spec fn request_of(
    adapters: AdaptersView,
    action: ActionView,
    transaction: Seq<char>,
) -> Option<RequestView> {
    match action {
        ActionView::RefreshFeeds => Some(refresh_request(adapters.feed)),
        ActionView::ListUnread { limit } => Some(entries_request(adapters.feed, limit)),
        ActionView::FetchContent { entry_id } => Some(content_request(adapters.feed, entry_id)),
        ActionView::MarkRead { entry_ids } => Some(mark_request(adapters.feed, entry_ids)),
        ActionView::Deliver { message } => Some(
            delivery_request(adapters.target, message, transaction),
        ),
        ActionView::Summarize { batch } => match adapters.summarizer {
            Some(model) => Some(summary_request(model, batch)),
            None => None,
        },
        ActionView::Sleep { .. } => None,
    }
}

/// Whether something came back, and with a status of success.
pub open spec fn went_well(response: Option<ResponseView>) -> bool {
    match response {
        Some(received) => is_success(received.status),
        None => false,
    }
}

/// What came back, where it came back with a status of success and with
/// what was asked for in its body.
pub open spec fn found_in<T>(
    response: Option<ResponseView>,
    reading: spec_fn(ResponseView) -> Option<T>,
) -> Option<T> {
    match response {
        Some(received) => match answer(received, reading(received)) {
            Ok(found) => Some(found),
            Err(_) => None,
        },
        None => None,
    }
}

/// The entries that came back for a listing, if any did.
pub open spec fn listed_in(response: Option<ResponseView>) -> Option<Seq<EntryView>> {
    found_in(response, |received: ResponseView| listing_in(decoded(received.body)))
}

/// The full content that came back, if any did.
pub open spec fn fetched_in(response: Option<ResponseView>) -> Option<Seq<char>> {
    found_in(response, |received: ResponseView| content_in(decoded(received.body)))
}

/// The text that the summarizer wrote, if any came back.
pub open spec fn summarized_in(response: Option<ResponseView>) -> Option<Seq<char>> {
    found_in(response, |received: ResponseView| completion_in(decoded(received.body)))
}

/// The event that a response amounts to, given the action that the request
/// carried out; `None` as the response stands for a request that brought
/// none. A request succeeded if a response came back with a status of
/// success and, where something was asked for, with that in its body.
/// Pausing brings no response: the pause ends with `Wake`.
pub open spec fn event_of(action: ActionView, response: Option<ResponseView>) -> Option<
    EventView,
> {
    match action {
        ActionView::RefreshFeeds => Some(EventView::Refreshed { ok: went_well(response) }),
        ActionView::ListUnread { .. } => Some(EventView::Listed { entries: listed_in(response) }),
        ActionView::FetchContent { .. } => Some(
            EventView::ContentFetched { content: fetched_in(response) },
        ),
        ActionView::MarkRead { .. } => Some(EventView::Acknowledged { ok: went_well(response) }),
        ActionView::Deliver { .. } => Some(EventView::Delivered { ok: went_well(response) }),
        ActionView::Summarize { .. } => Some(
            EventView::Summarized { response: summarized_in(response) },
        ),
        ActionView::Sleep { .. } => None,
    }
}

/// The model of an optional request.
pub open spec fn request_view(request: Option<Request>) -> Option<RequestView> {
    match request {
        Some(made) => Some(made@),
        None => None,
    }
}

/// The model of an optional event.
pub open spec fn event_view(event: Option<Event>) -> Option<EventView> {
    match event {
        Some(made) => Some(made@),
        None => None,
    }
}

/// The model of an optional borrowed response.
pub open spec fn response_view(response: Option<&Response>) -> Option<ResponseView> {
    match response {
        Some(received) => Some(received@),
        None => None,
    }
}

fn succeeded(response: Option<&Response>) -> (ok: bool)
    ensures
        ok == went_well(response_view(response)),
{
    match response {
        Some(received) => received.succeeded(),
        None => false,
    }
}

fn copy_ids(entry_ids: &Vec<u64>) -> (copy: Vec<u64>)
    ensures
        copy@ == entry_ids@,
{
    let mut copy: Vec<u64> = Vec::new();
    let mut i: usize = 0;
    while i < entry_ids.len()
        invariant
            i <= entry_ids.len(),
            copy@ == entry_ids@.take(i as int),
        decreases entry_ids.len() - i,
    {
        copy.push(entry_ids[i]);
        i += 1;
    }
    copy
}

impl Adapters {
    /// The request that carries out `action`.
    ///
    /// Entries are marked as read exactly as the action names them, and a
    /// message is delivered exactly as the action holds it.
    pub fn request_for(&self, action: &Action, transaction: &str) -> (request: Option<Request>)
        ensures
            request_view(request) == request_of(self@, action@, transaction@),
    {
        match action {
            Action::RefreshFeeds => Some(self.feed.refresh_all_feeds()),
            Action::ListUnread { limit } => Some(self.feed.get_entries(*limit)),
            Action::FetchContent { entry_id } => Some(self.feed.get_content(*entry_id)),
            Action::MarkRead { entry_ids } => Some(
                self.feed.mark_as_read_some(copy_ids(entry_ids)),
            ),
            Action::Deliver { message } => Some(self.target.deliver(message.as_str(), transaction)),
            Action::Summarize { batch } => match &self.summarizer {
                Some(model) => Some(model.process_news(batch)),
                None => None,
            },
            Action::Sleep { .. } => None,
        }
    }
}

impl Event {
    /// The event that `response` amounts to after a request for `action`;
    /// `None` as the response stands for a request that brought none.
    pub fn answering(action: &Action, response: Option<&Response>) -> (event: Option<Event>)
        ensures
            event_view(event) == event_of(action@, response_view(response)),
    {
        match action {
            Action::RefreshFeeds => Some(Event::Refreshed { ok: succeeded(response) }),
            Action::ListUnread { .. } => {
                let entries = match response {
                    Some(received) => match MinifluxClient::read_entries(received) {
                        Ok(entries) => Some(entries),
                        Err(_) => None,
                    },
                    None => None,
                };
                Some(Event::Listed { entries })
            },
            Action::FetchContent { .. } => {
                let content = match response {
                    Some(received) => match MinifluxClient::read_content(received) {
                        Ok(content) => Some(content),
                        Err(_) => None,
                    },
                    None => None,
                };
                Some(Event::ContentFetched { content })
            },
            Action::MarkRead { .. } => Some(Event::Acknowledged { ok: succeeded(response) }),
            Action::Deliver { .. } => Some(Event::Delivered { ok: succeeded(response) }),
            Action::Summarize { .. } => {
                let response = match response {
                    Some(received) => match Model::read_summary(received) {
                        Ok(text) => Some(text),
                        Err(_) => None,
                    },
                    None => None,
                };
                Some(Event::Summarized { response })
            },
            Action::Sleep { .. } => None,
        }
    }
}

} // verus!
