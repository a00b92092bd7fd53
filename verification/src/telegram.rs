//! A channel-based chat destination.

use crate::http::{no_pairs, pair, pair_views, Method, Request, RequestView};
use crate::json::{rendered, text_member, Json, JsonView};
use vstd::prelude::*;

verus! {

/// Access to a channel: the token of the sender, the chat and the thread in
/// it.
#[derive(Debug, PartialEq, Eq)]
pub struct TelegramClient {
    token: String,
    chat_id: String,
    thread_id: String,
}

/// The mathematical model of a [`TelegramClient`].
pub struct TelegramView {
    pub token: Seq<char>,
    pub chat_id: Seq<char>,
    pub thread_id: Seq<char>,
}

impl View for TelegramClient {
    type V = TelegramView;

    closed spec fn view(&self) -> TelegramView {
        TelegramView { token: self.token@, chat_id: self.chat_id@, thread_id: self.thread_id@ }
    }
}

impl Clone for TelegramClient {
    fn clone(&self) -> (copy: TelegramClient)
        ensures
            copy@ == self@,
    {
        TelegramClient {
            token: self.token.clone(),
            chat_id: self.chat_id.clone(),
            thread_id: self.thread_id.clone(),
        }
    }
}

/// The thread that a message goes to when the configuration names none.
pub open spec fn default_thread() -> Seq<char> {
    "0"@
}

/// The thread that a message goes to: the one that the configuration names,
/// or the default.
pub open spec fn thread_or_default(thread_id: Option<Seq<char>>) -> Seq<char> {
    match thread_id {
        Some(thread) => thread,
        None => default_thread(),
    }
}

/// The document that carries `message` to a channel: the chat and the
/// thread in it, and the message as Markdown.
pub open spec fn channel_message(client: TelegramView, message: Seq<char>) -> JsonView {
    JsonView::Object(
        seq![
            text_member("chat_id"@, client.chat_id),
            text_member("message_thread_id"@, client.thread_id),
            text_member("parse_mode"@, "MarkdownV2"@),
            text_member("text"@, message),
        ],
    )
}

/// The request that delivers `message` to the channel.
pub open spec fn channel_request(client: TelegramView, message: Seq<char>) -> RequestView {
    RequestView {
        method: Method::Post,
        url: "https://api.telegram.org/bot"@ + client.token + "/sendMessage"@,
        headers: seq![("Content-Type"@, "application/json"@)],
        query: Seq::empty(),
        body: Some(rendered(channel_message(client, message))),
    }
}

/// The thread that a message goes to when the configuration names none.
pub fn default_thread_id() -> (thread_id: String)
    ensures
        thread_id@ == default_thread(),
{
    String::from_str("0")
}

impl TelegramClient {
    /// Access to thread `thread_id` of chat `chat_id` with `token`.
    pub fn new(token: String, chat_id: String, thread_id: String) -> (client: TelegramClient)
        ensures
            client@ == (TelegramView { token: token@, chat_id: chat_id@, thread_id: thread_id@ }),
    {
        TelegramClient { token, chat_id, thread_id }
    }

    /// Access to chat `chat_id` with `token`, in the thread that the
    /// configuration names or else in the default thread.
    pub fn with_thread(token: String, chat_id: String, thread_id: Option<String>) -> (client:
        TelegramClient)
        ensures
            client@ == (TelegramView {
                token: token@,
                chat_id: chat_id@,
                thread_id: thread_or_default(
                    match thread_id {
                        Some(thread) => Some(thread@),
                        None => None,
                    },
                ),
            }),
    {
        let thread_id = match thread_id {
            Some(thread) => thread,
            None => default_thread_id(),
        };
        TelegramClient { token, chat_id, thread_id }
    }

    /// Asks to have `message` delivered to the channel.
    pub fn send_message(&self, message: &str) -> (request: Request)
        ensures
            request@ == channel_request(self@, message@),
    {
        let mut url = String::from_str("https://api.telegram.org/bot");
        url.append(self.token.as_str());
        url.append("/sendMessage");
        let mut headers: Vec<(String, String)> = Vec::new();
        headers.push(pair("Content-Type", "application/json"));
        assert(pair_views(headers@) =~= seq![("Content-Type"@, "application/json"@)]);
        let mut members: Vec<(String, Json)> = Vec::new();
        members.push(Json::text_member("chat_id", self.chat_id.as_str()));
        members.push(Json::text_member("message_thread_id", self.thread_id.as_str()));
        members.push(Json::text_member("parse_mode", "MarkdownV2"));
        members.push(Json::text_member("text", message));
        let document = Json::object(members);
        assert(document@ == channel_message(self@, message@)) by {
            assert(document@->Object_0 =~= channel_message(self@, message@)->Object_0);
        }
        let body = Some(document.render());
        Request { method: Method::Post, url, headers, query: no_pairs(), body }
    }
}

} // verus!
