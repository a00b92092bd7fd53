//! The chat destination that a pipeline delivers to.

use crate::http::{Request, RequestView};
use crate::markup::Markup;
use crate::matrix::{room_request, MatrixClient, MatrixView};
use crate::telegram::{channel_request, TelegramClient, TelegramView};
use vstd::prelude::*;

verus! {

/// One chat destination: a room or a channel, with what it takes to reach
/// it. It is fixed when the process starts.
#[derive(Debug, Clone, PartialEq, Eq)]
pub enum DeliveryTarget {
    Room(MatrixClient),
    Channel(TelegramClient),
}

/// The mathematical model of a [`DeliveryTarget`].
pub enum DeliveryTargetView {
    Room(MatrixView),
    Channel(TelegramView),
}

impl View for DeliveryTarget {
    type V = DeliveryTargetView;

    open spec fn view(&self) -> DeliveryTargetView {
        match self {
            DeliveryTarget::Room(client) => DeliveryTargetView::Room(client@),
            DeliveryTarget::Channel(client) => DeliveryTargetView::Channel(client@),
        }
    }
}

/// The markup that a destination reads: HTML in a room, Markdown in a
/// channel.
pub open spec fn markup_of(target: DeliveryTargetView) -> Markup {
    match target {
        DeliveryTargetView::Room(_) => Markup::Html,
        DeliveryTargetView::Channel(_) => Markup::Markdown,
    }
}

/// The request that delivers `message` to a destination. Only a room makes
/// use of the transaction.
pub open spec fn delivery_request(
    target: DeliveryTargetView,
    message: Seq<char>,
    transaction: Seq<char>,
) -> RequestView {
    match target {
        DeliveryTargetView::Room(client) => room_request(client, message, transaction),
        DeliveryTargetView::Channel(client) => channel_request(client, message),
    }
}

impl DeliveryTarget {
    /// The markup that this destination reads.
    pub fn markup(&self) -> (markup: Markup)
        ensures
            markup == markup_of(self@),
    {
        match self {
            DeliveryTarget::Room(_) => Markup::Html,
            DeliveryTarget::Channel(_) => Markup::Markdown,
        }
    }

    /// Asks to have `message` delivered to this destination.
    pub fn deliver(&self, message: &str, transaction: &str) -> (request: Request)
        ensures
            request@ == delivery_request(self@, message@, transaction@),
    {
        match self {
            DeliveryTarget::Room(client) => client.post(message, transaction),
            DeliveryTarget::Channel(client) => client.send_message(message),
        }
    }
}

} // verus!
