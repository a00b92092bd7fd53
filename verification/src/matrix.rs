//! A room-based chat destination.

use crate::http::{no_pairs, pair, pair_views, Method, Request, RequestView};
use crate::json::{rendered, text_member, Json, JsonView};
use crate::text::{encode, percent_encoded_text};
use vstd::prelude::*;

verus! {

/// Access to a room: the server, the token that it asks for and the local
/// part of the room's name.
#[derive(Debug, PartialEq, Eq)]
pub struct MatrixClient {
    server: String,
    token: String,
    room: String,
}

/// The mathematical model of a [`MatrixClient`].
pub struct MatrixView {
    pub server: Seq<char>,
    pub token: Seq<char>,
    pub room: Seq<char>,
}

impl View for MatrixClient {
    type V = MatrixView;

    closed spec fn view(&self) -> MatrixView {
        MatrixView { server: self.server@, token: self.token@, room: self.room@ }
    }
}

impl Clone for MatrixClient {
    fn clone(&self) -> (copy: MatrixClient)
        ensures
            copy@ == self@,
    {
        MatrixClient {
            server: self.server.clone(),
            token: self.token.clone(),
            room: self.room.clone(),
        }
    }
}

/// The address that a message for the room is put to: the room's name
/// percent-encoded and followed by the server, and at the end the identifier
/// of the transaction.
pub open spec fn room_address(client: MatrixView, transaction: Seq<char>) -> Seq<char> {
    "https://"@ + client.server + "/_matrix/client/v3/rooms/"@ + percent_encoded_text(client.room)
        + ":"@ + client.server + "/send/m.room.message/"@ + transaction
}

/// The headers of a message for the room.
pub open spec fn room_headers(client: MatrixView) -> Seq<(Seq<char>, Seq<char>)> {
    seq![
        ("Content-type"@, "application/json"@),
        ("Authorization"@, "Bearer "@ + client.token),
    ]
}

/// The document that carries `message` to a room: an HTML text message
/// whose plain and formatted body are both the message.
pub open spec fn room_message(message: Seq<char>) -> JsonView {
    JsonView::Object(
        seq![
            text_member("body"@, message),
            text_member("format"@, "org.matrix.custom.html"@),
            text_member("formatted_body"@, message),
            text_member("msgtype"@, "m.text"@),
        ],
    )
}

/// The request that delivers `message` to the room.
pub open spec fn room_request(
    client: MatrixView,
    message: Seq<char>,
    transaction: Seq<char>,
) -> RequestView {
    RequestView {
        method: Method::Put,
        url: room_address(client, transaction),
        headers: room_headers(client),
        query: Seq::empty(),
        body: Some(rendered(room_message(message))),
    }
}

impl MatrixClient {
    /// Access to the room `room` on `server` with `token`.
    pub fn new(server: String, token: String, room: String) -> (client: MatrixClient)
        ensures
            client@ == (MatrixView { server: server@, token: token@, room: room@ }),
    {
        MatrixClient { server, token, room }
    }

    /// Asks to have `message` delivered to the room, as the transaction
    /// `transaction`. The server takes a transaction once: a later one needs
    /// another identifier, such as the time.
    pub fn post(&self, message: &str, transaction: &str) -> (request: Request)
        ensures
            request@ == room_request(self@, message@, transaction@),
    {
        let mut url = String::from_str("https://");
        url.append(self.server.as_str());
        url.append("/_matrix/client/v3/rooms/");
        url.append(encode(self.room.as_str()).as_str());
        url.append(":");
        url.append(self.server.as_str());
        url.append("/send/m.room.message/");
        url.append(transaction);
        let mut bearer = String::from_str("Bearer ");
        bearer.append(self.token.as_str());
        let mut headers: Vec<(String, String)> = Vec::new();
        headers.push(pair("Content-type", "application/json"));
        headers.push(pair("Authorization", bearer.as_str()));
        assert(pair_views(headers@) =~= room_headers(self@));
        let mut members: Vec<(String, Json)> = Vec::new();
        members.push(Json::text_member("body", message));
        members.push(Json::text_member("format", "org.matrix.custom.html"));
        members.push(Json::text_member("formatted_body", message));
        members.push(Json::text_member("msgtype", "m.text"));
        let document = Json::object(members);
        assert(document@ == room_message(message@)) by {
            assert(document@->Object_0 =~= room_message(message@)->Object_0);
        }
        let body = Some(document.render());
        Request { method: Method::Put, url, headers, query: no_pairs(), body }
    }
}

} // verus!
