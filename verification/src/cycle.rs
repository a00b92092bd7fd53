//! Whole cycles, as the outside makes them.
//!
//! What a cycle does depends on what the outside does for it: whether the
//! feeds could be refreshed, what was listed, and for each entry or for the
//! batch what came back. The functions here write that down as the events
//! of a cycle, and say what a cycle is to hand over and to mark in return.

use crate::digest::{digest_of, DigestItemView};
use crate::entry::{entry_ids, text_or, EntryView};
use crate::json::decoded;
use crate::markup::{digest_markup, entry_markup, no_news};
use crate::pipeline::{
    advance, after_listing, idle, next, EventView, Mode, PhaseView, PipelineView, Settings,
};
use crate::run::{
    acknowledged, answers, deliveries, delivery, lemma_acknowledged_concat,
    lemma_deliveries_concat, lemma_run_concat, lemma_run_one, lemma_run_three, lemma_run_two,
    lemma_tally_three, lemma_tally_two, state_after,
};
use vstd::prelude::*;

verus! {

/// The events that open a cycle in which the unread entries could be
/// listed.
pub open spec fn opening(refreshed: bool, entries: Seq<EntryView>) -> Seq<EventView> {
    seq![
        EventView::Wake,
        EventView::Refreshed { ok: refreshed },
        EventView::Listed { entries: Some(entries) },
    ]
}

/// What the outside did for one entry that is handled on its own: the full
/// content it gave, whether the delivery succeeded and, if it did, whether
/// the entry could then be marked as read.
pub struct Attempt {
    pub content: Option<Seq<char>>,
    pub delivered: bool,
    pub marked: bool,
}

/// The events that one entry brings: its content, the outcome of its
/// delivery and, after a delivery that succeeded, the outcome of marking it.
pub open spec fn attempt_events(attempt: Attempt) -> Seq<EventView> {
    if attempt.delivered {
        seq![
            EventView::ContentFetched { content: attempt.content },
            EventView::Delivered { ok: true },
            EventView::Acknowledged { ok: attempt.marked },
        ]
    } else {
        seq![
            EventView::ContentFetched { content: attempt.content },
            EventView::Delivered { ok: false },
        ]
    }
}

/// The events that a list of entries brings, entry after entry.
pub open spec fn direct_events(attempts: Seq<Attempt>) -> Seq<EventView>
    decreases attempts.len(),
{
    if attempts.len() == 0 {
        Seq::empty()
    } else {
        attempt_events(attempts[0]) + direct_events(attempts.drop_first())
    }
}

/// The message that is handed over for `entry` with what was fetched for it.
pub open spec fn direct_message(settings: Settings, entry: EntryView, attempt: Attempt) -> Seq<
    char,
> {
    entry_markup(settings.markup, entry, text_or(attempt.content, Seq::empty()))
}

/// The message for each entry, in the order of the entries: the entry with
/// the content that was fetched for it, or with none where that failed.
pub open spec fn direct_messages(
    settings: Settings,
    entries: Seq<EntryView>,
    attempts: Seq<Attempt>,
) -> Seq<Seq<char>> {
    Seq::new(entries.len(), |i: int| direct_message(settings, entries[i], attempts[i]))
}

/// The identifiers of the entries whose delivery succeeded, in the order of
/// the entries.
pub open spec fn delivered_ids(entries: Seq<EntryView>, attempts: Seq<Attempt>) -> Seq<u64>
    decreases entries.len(),
{
    if entries.len() == 0 {
        Seq::empty()
    } else if attempts[0].delivered {
        seq![entries[0].id] + delivered_ids(entries.drop_first(), attempts.drop_first())
    } else {
        delivered_ids(entries.drop_first(), attempts.drop_first())
    }
}

/// Whether two lists of attempts were given the same full content, entry for
/// entry.
pub open spec fn same_contents(first: Seq<Attempt>, second: Seq<Attempt>) -> bool {
    &&& first.len() == second.len()
    &&& forall|i: int| 0 <= i < first.len() ==> first[i].content == second[i].content
}

/// What the outside did for a batch: the summarizer's response, whether the
/// delivery succeeded and, if it did, whether the batch could then be marked
/// as read. For an empty batch only the delivery counts.
pub struct BatchOutcome {
    pub summary: Option<Seq<char>>,
    pub delivered: bool,
    pub marked: bool,
}

/// The digest that the summarizer's response holds, if it holds one.
pub open spec fn digest_in(outcome: BatchOutcome) -> Option<Seq<DigestItemView>> {
    match outcome.summary {
        Some(text) => match digest_of(decoded(text)) {
            Ok(items) => Some(items),
            Err(_) => None,
        },
        None => None,
    }
}

/// The events that a batch brings after it has been listed.
///
/// An empty batch brings the outcome of delivering the notice. Any other
/// brings the summarizer's response and, where that holds a digest, the
/// outcome of the delivery and, after a delivery that succeeded, the outcome
/// of the marking.
pub open spec fn digest_events(entries: Seq<EntryView>, outcome: BatchOutcome) -> Seq<EventView> {
    if entries.len() == 0 {
        seq![EventView::Delivered { ok: outcome.delivered }]
    } else if digest_in(outcome) is None {
        seq![EventView::Summarized { response: outcome.summary }]
    } else if outcome.delivered {
        seq![
            EventView::Summarized { response: outcome.summary },
            EventView::Delivered { ok: true },
            EventView::Acknowledged { ok: outcome.marked },
        ]
    } else {
        seq![
            EventView::Summarized { response: outcome.summary },
            EventView::Delivered { ok: false },
        ]
    }
}

/// The messages that a cycle hands over for a batch: the notice for an empty
/// batch, the digest where the summarizer's response holds one, and nothing
/// else.
pub open spec fn digest_messages(
    settings: Settings,
    entries: Seq<EntryView>,
    outcome: BatchOutcome,
) -> Seq<Seq<char>> {
    if entries.len() == 0 {
        seq![no_news()]
    } else {
        match digest_in(outcome) {
            Some(items) => seq![digest_markup(settings.markup, items)],
            None => Seq::empty(),
        }
    }
}

/// The entries that a cycle asks to have marked as read for a batch: all of
/// them where a digest was delivered, and none otherwise.
pub open spec fn digest_marked(entries: Seq<EntryView>, outcome: BatchOutcome) -> Seq<u64> {
    if entries.len() > 0 && digest_in(outcome) is Some && outcome.delivered {
        entry_ids(entries)
    } else {
        Seq::empty()
    }
}

pub(crate) proof fn lemma_opening(settings: Settings, refreshed: bool, entries: Seq<EntryView>)
    ensures
        state_after(idle(settings), opening(refreshed, entries)) == after_listing(
            settings,
            entries,
        ).0,
        answers(idle(settings), opening(refreshed, entries)).len() == 3,
        answers(idle(settings), opening(refreshed, entries))[0].action is RefreshFeeds,
        answers(idle(settings), opening(refreshed, entries))[1].action is ListUnread,
        answers(idle(settings), opening(refreshed, entries))[2] == after_listing(
            settings,
            entries,
        ).1,
        deliveries(answers(idle(settings), opening(refreshed, entries))) == delivery(
            after_listing(settings, entries).1,
        ),
        acknowledged(answers(idle(settings), opening(refreshed, entries))) == Seq::<u64>::empty(),
{
    let start = idle(settings);
    let wake = EventView::Wake;
    let refresh = EventView::Refreshed { ok: refreshed };
    let list = EventView::Listed { entries: Some(entries) };
    let woken = next(start, wake);
    let refreshing = next(woken.0, refresh);
    let listed = next(refreshing.0, list);
    lemma_run_three(start, wake, refresh, list);
    lemma_tally_three(woken.1, refreshing.1, listed.1);
}

pub(crate) proof fn lemma_attempt(
    settings: Settings,
    current: EntryView,
    rest: Seq<EntryView>,
    attempt: Attempt,
)
    ensures
        ({
            let start = PipelineView {
                settings,
                phase: PhaseView::FetchingContent { current, rest },
            };
            let given = answers(start, attempt_events(attempt));
            &&& state_after(start, attempt_events(attempt)) == advance(settings, rest, None).0
            &&& deliveries(given) == seq![direct_message(settings, current, attempt)]
            &&& acknowledged(given) == if attempt.delivered {
                seq![current.id]
            } else {
                Seq::<u64>::empty()
            }
        }),
{
    let start = PipelineView { settings, phase: PhaseView::FetchingContent { current, rest } };
    let fetch = EventView::ContentFetched { content: attempt.content };
    let fetched = next(start, fetch);
    if attempt.delivered {
        let deliver = EventView::Delivered { ok: true };
        let mark = EventView::Acknowledged { ok: attempt.marked };
        let delivered = next(fetched.0, deliver);
        let marked = next(delivered.0, mark);
        lemma_run_three(start, fetch, deliver, mark);
        lemma_tally_three(fetched.1, delivered.1, marked.1);
    } else {
        let deliver = EventView::Delivered { ok: false };
        let delivered = next(fetched.0, deliver);
        lemma_run_two(start, fetch, deliver);
        lemma_tally_two(fetched.1, delivered.1);
    }
}

pub(crate) proof fn lemma_direct_entries(
    settings: Settings,
    entries: Seq<EntryView>,
    attempts: Seq<Attempt>,
)
    requires
        attempts.len() == entries.len(),
    ensures
        ({
            let start = advance(settings, entries, None).0;
            let given = answers(start, direct_events(attempts));
            &&& state_after(start, direct_events(attempts)) == idle(settings)
            &&& deliveries(given) == direct_messages(settings, entries, attempts)
            &&& acknowledged(given) == delivered_ids(entries, attempts)
        }),
    decreases entries.len(),
{
    let start = advance(settings, entries, None).0;
    if entries.len() > 0 {
        let rest = entries.drop_first();
        let head = attempt_events(attempts[0]);
        let tail = direct_events(attempts.drop_first());
        lemma_direct_entries(settings, rest, attempts.drop_first());
        lemma_attempt(settings, entries[0], rest, attempts[0]);
        lemma_run_concat(start, head, tail);
        let middle = state_after(start, head);
        lemma_deliveries_concat(answers(start, head), answers(middle, tail));
        lemma_acknowledged_concat(answers(start, head), answers(middle, tail));
    }
}

pub(crate) proof fn lemma_delivered_ids_members(entries: Seq<EntryView>, attempts: Seq<Attempt>)
    requires
        attempts.len() == entries.len(),
    ensures
        forall|i: int|
            0 <= i < entries.len() && attempts[i].delivered ==> delivered_ids(
                entries,
                attempts,
            ).contains(#[trigger] entries[i].id),
        forall|id: u64| #[trigger]
            delivered_ids(entries, attempts).contains(id) ==> exists|i: int|
                0 <= i < entries.len() && attempts[i].delivered && #[trigger] entries[i].id == id,
    decreases entries.len(),
{
    if entries.len() > 0 {
        let rest = entries.drop_first();
        let others = attempts.drop_first();
        let ids = delivered_ids(entries, attempts);
        let later = delivered_ids(rest, others);
        lemma_delivered_ids_members(rest, others);
        assert forall|i: int| 0 <= i < entries.len() && attempts[i].delivered implies ids.contains(
            #[trigger] entries[i].id,
        ) by {
            if i == 0 {
                assert(ids[0] == entries[0].id);
            } else {
                let k = choose|k: int| 0 <= k < later.len() && later[k] == rest[i - 1].id;
                if attempts[0].delivered {
                    assert(ids[k + 1] == later[k]);
                }
            }
        }
        assert forall|id: u64| #[trigger] ids.contains(id) implies exists|i: int|
            0 <= i < entries.len() && attempts[i].delivered && #[trigger] entries[i].id == id by {
            let k = choose|k: int| 0 <= k < ids.len() && ids[k] == id;
            if !(attempts[0].delivered && k == 0) {
                assert(later.contains(id));
            }
        }
    }
}

pub(crate) proof fn lemma_batch(settings: Settings, entries: Seq<EntryView>, outcome: BatchOutcome)
    requires
        settings.mode == Mode::Digest,
    ensures
        ({
            let start = after_listing(settings, entries).0;
            let given = answers(start, digest_events(entries, outcome));
            &&& state_after(start, digest_events(entries, outcome)) == idle(settings)
            &&& delivery(after_listing(settings, entries).1) + deliveries(given) == digest_messages(
                settings,
                entries,
                outcome,
            )
            &&& acknowledged(given) == digest_marked(entries, outcome)
        }),
{
    let listed = after_listing(settings, entries);
    let start = listed.0;
    if entries.len() == 0 {
        let deliver = EventView::Delivered { ok: outcome.delivered };
        lemma_run_one(start, deliver);
    } else {
        let summarize = EventView::Summarized { response: outcome.summary };
        let summarized = next(start, summarize);
        match digest_in(outcome) {
            None => {
                lemma_run_one(start, summarize);
            },
            Some(_) => {
                if outcome.delivered {
                    let deliver = EventView::Delivered { ok: true };
                    let mark = EventView::Acknowledged { ok: outcome.marked };
                    let delivered = next(summarized.0, deliver);
                    let marked = next(delivered.0, mark);
                    lemma_run_three(start, summarize, deliver, mark);
                    lemma_tally_three(summarized.1, delivered.1, marked.1);
                } else {
                    let deliver = EventView::Delivered { ok: false };
                    let delivered = next(summarized.0, deliver);
                    lemma_run_two(start, summarize, deliver);
                    lemma_tally_two(summarized.1, delivered.1);
                }
            },
        }
    }
}

} // verus!
