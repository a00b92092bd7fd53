//! What holds of every run of the pipeline.
//!
//! Each law is a theorem about [`next`], the model of
//! [`Pipeline::step`](crate::pipeline::Pipeline::step), and about the runs
//! and cycles made of its steps.

use crate::cycle::{
    delivered_ids, digest_events, digest_in, digest_marked, digest_messages, direct_events,
    direct_messages, lemma_batch, lemma_delivered_ids_members,
    lemma_direct_entries, lemma_opening, opening, same_contents, Attempt, BatchOutcome,
};
use crate::digest::{digest_of, DigestError, DigestItemView};
use crate::entry::{entry_ids, entry_of, text_or, EntryView};
use crate::json::{decoded, JsonView};
use crate::markup::{digest_markup, entry_markup, no_news};
use crate::pipeline::{
    finish, idle, next, severity_of, EventView, Incident, Mode, PhaseView, PipelineView,
    Settings, Severity,
};
use crate::run::{
    acknowledged, acknowledgement, answers, deliveries, lemma_acknowledged_concat,
    lemma_answer_at, lemma_deliveries_concat, lemma_run_concat, lemma_run_one,
    lemma_settings_kept, state_after, state_before,
};
use vstd::prelude::*;

verus! {

/// An entry is marked as read only after its delivery has succeeded.
///
/// Take any run of a pipeline that starts between two cycles. Where the
/// answer to an event asks to have entries marked as read, that event reports
/// a successful delivery, and the answer just before it handed over the
/// message of that delivery. The message is either one entry with the content
/// fetched for it, and then that entry alone is marked; or the digest read
/// from the summarizer's response to a batch, and then the whole batch is
/// marked.
pub proof fn law_acknowledged_after_delivery(
    settings: Settings,
    events: Seq<EventView>,
    at: int,
)
    requires
        0 <= at < events.len(),
        answers(idle(settings), events)[at].action is MarkRead,
    ensures
        at >= 1,
        events[at] == (EventView::Delivered { ok: true }),
        answers(idle(settings), events)[at - 1].action is Deliver,
        ({
            let marked = answers(idle(settings), events)[at].action->MarkRead_entry_ids;
            let message = answers(idle(settings), events)[at - 1].action->Deliver_message;
            match state_before(idle(settings), events, at - 1).phase {
                PhaseView::FetchingContent { current, rest } => {
                    &&& events[at - 1] is ContentFetched
                    &&& message == entry_markup(
                        settings.markup,
                        current,
                        text_or(events[at - 1]->ContentFetched_content, Seq::empty()),
                    )
                    &&& marked == seq![current.id]
                },
                PhaseView::Summarizing { entries } => {
                    &&& events[at - 1] matches EventView::Summarized { response: Some(text) }
                    &&& digest_of(decoded(text)) matches Ok(items)
                    &&& message == digest_markup(settings.markup, items)
                    &&& marked == entry_ids(entries)
                },
                _ => false,
            }
        }),
{
    let start = idle(settings);
    lemma_answer_at(start, events, at);
    lemma_answer_at(start, events, at - 1);
    lemma_settings_kept(start, events.take(at - 1));
}

/// A delivery that failed marks nothing as read, whatever the pipeline was
/// waiting for.
pub proof fn law_failed_delivery_marks_nothing(pipeline: PipelineView)
    ensures
        !(next(pipeline, EventView::Delivered { ok: false }).1.action is MarkRead),
        acknowledgement(next(pipeline, EventView::Delivered { ok: false }).1) == Seq::<
            u64,
        >::empty(),
{
}

/// An incident reaches as far as its severity says.
///
/// After an incident that is fatal to the cycle the pipeline stands between
/// two cycles and asks for the pause. After one that is local to an entry it
/// goes on to the next entry, or ends the cycle where there is none. After a
/// transient one it goes on as if nothing had happened, with the listing or
/// with the delivery. No step with an incident asks to have anything marked
/// as read.
pub proof fn law_incident_reach(pipeline: PipelineView, event: EventView)
    requires
        next(pipeline, event).1.incident is Some,
    ensures
        ({
            let (after, answer) = next(pipeline, event);
            let incident = answer.incident->Some_0;
            &&& !(answer.action is MarkRead)
            &&& severity_of(incident) == Severity::CycleFatal ==> (after, answer) == finish(
                pipeline.settings,
                Some(incident),
            )
            &&& severity_of(incident) == Severity::EntryLocal ==> (answer.action is FetchContent
                || answer.action is Sleep)
            &&& severity_of(incident) == Severity::Transient ==> (answer.action is ListUnread
                || answer.action is Deliver)
        }),
{
}

/// A cycle that handles its entries one by one delivers every entry and
/// marks exactly those whose delivery succeeded.
///
/// Take a pipeline between two cycles that handles entries one by one, a
/// list of unread entries and, for each entry, what the outside did for it.
/// The cycle then hands over one message for each entry, in the order of the
/// list: the entry with the content fetched for it. It asks to have marked as
/// read the entries whose delivery succeeded, in that order, and no other.
/// Neither depends on what happened to the entries before. The cycle ends
/// between two cycles again.
pub proof fn law_direct_cycle(
    settings: Settings,
    refreshed: bool,
    entries: Seq<EntryView>,
    attempts: Seq<Attempt>,
)
    requires
        settings.mode == Mode::Direct,
        attempts.len() == entries.len(),
    ensures
        ({
            let events = opening(refreshed, entries) + direct_events(attempts);
            let given = answers(idle(settings), events);
            &&& state_after(idle(settings), events) == idle(settings)
            &&& deliveries(given) == direct_messages(settings, entries, attempts)
            &&& acknowledged(given) == delivered_ids(entries, attempts)
        }),
{
    let start = idle(settings);
    let head = opening(refreshed, entries);
    let tail = direct_events(attempts);
    lemma_opening(settings, refreshed, entries);
    lemma_run_concat(start, head, tail);
    lemma_direct_entries(settings, entries, attempts);
    let middle = state_after(start, head);
    lemma_deliveries_concat(answers(start, head), answers(middle, tail));
    lemma_acknowledged_concat(answers(start, head), answers(middle, tail));
}

/// Each entry that is handled on its own stands or falls alone.
///
/// In a cycle that handles its entries one by one, an entry whose delivery
/// succeeded is marked as read whatever became of the others, and an entry
/// is marked as read only if a delivery of it succeeded. So an entry whose
/// delivery failed is still unread after the cycle, and a failure neither
/// holds back nor undoes its neighbours.
pub proof fn law_direct_marks_exactly_delivered(
    settings: Settings,
    refreshed: bool,
    entries: Seq<EntryView>,
    attempts: Seq<Attempt>,
)
    requires
        settings.mode == Mode::Direct,
        attempts.len() == entries.len(),
    ensures
        ({
            let events = opening(refreshed, entries) + direct_events(attempts);
            let marked = acknowledged(answers(idle(settings), events));
            &&& forall|i: int|
                0 <= i < entries.len() && attempts[i].delivered ==> marked.contains(
                    #[trigger] entries[i].id,
                )
            &&& forall|id: u64| #[trigger]
                marked.contains(id) ==> exists|i: int|
                    0 <= i < entries.len() && attempts[i].delivered && #[trigger] entries[i].id
                        == id
        }),
{
    law_direct_cycle(settings, refreshed, entries, attempts);
    lemma_delivered_ids_members(entries, attempts);
}

/// An entry whose delivery failed is still unread after the cycle.
///
/// In a cycle that handles its entries one by one, take an entry whose
/// delivery failed and whose identifier no delivered entry shares. The cycle
/// does not ask to have it marked as read.
pub proof fn law_undelivered_entry_stays_unread(
    settings: Settings,
    refreshed: bool,
    entries: Seq<EntryView>,
    attempts: Seq<Attempt>,
    at: int,
)
    requires
        settings.mode == Mode::Direct,
        attempts.len() == entries.len(),
        0 <= at < entries.len(),
        !attempts[at].delivered,
        forall|other: int|
            0 <= other < entries.len() && attempts[other].delivered ==> entries[other].id
                != entries[at].id,
    ensures
        !acknowledged(
            answers(idle(settings), opening(refreshed, entries) + direct_events(attempts)),
        ).contains(entries[at].id),
{
    law_direct_marks_exactly_delivered(settings, refreshed, entries, attempts);
}

/// Entries that come again are delivered again as they were.
///
/// Take two cycles, one after the other, that handle their entries one by
/// one and are given the same unread entries, as happens when nothing of the
/// first cycle could be marked as read. If the full contents fetched are the
/// same, the second cycle hands over the very messages of the first, whatever
/// became of the refreshes, deliveries and markings in either.
pub proof fn law_direct_redelivery(
    settings: Settings,
    entries: Seq<EntryView>,
    first_refreshed: bool,
    first: Seq<Attempt>,
    second_refreshed: bool,
    second: Seq<Attempt>,
)
    requires
        settings.mode == Mode::Direct,
        first.len() == entries.len(),
        same_contents(first, second),
    ensures
        ({
            let once = opening(first_refreshed, entries) + direct_events(first);
            let again = opening(second_refreshed, entries) + direct_events(second);
            let messages = deliveries(answers(idle(settings), once));
            &&& state_after(idle(settings), once + again) == idle(settings)
            &&& deliveries(answers(idle(settings), once + again)) == messages + messages
        }),
{
    let start = idle(settings);
    let once = opening(first_refreshed, entries) + direct_events(first);
    let again = opening(second_refreshed, entries) + direct_events(second);
    law_direct_cycle(settings, first_refreshed, entries, first);
    law_direct_cycle(settings, second_refreshed, entries, second);
    lemma_run_concat(start, once, again);
    lemma_deliveries_concat(answers(start, once), answers(start, again));
}

/// A cycle that handles its entries as a batch delivers at most one message
/// and marks all of the batch or nothing.
///
/// Take a pipeline between two cycles that handles entries as a batch, a
/// list of unread entries and what the outside did for the batch. For an
/// empty list the cycle hands over the notice that there is nothing new,
/// once, and marks nothing. For any other list it hands over the digest read
/// from the summarizer's response, as one message, and marks every entry of
/// the list where that delivery succeeded; where the summarizer failed, its
/// response holds no digest or the delivery failed, it marks nothing, and in
/// the first two cases it hands nothing over either. The cycle ends between
/// two cycles again.
pub proof fn law_digest_cycle(
    settings: Settings,
    refreshed: bool,
    entries: Seq<EntryView>,
    outcome: BatchOutcome,
)
    requires
        settings.mode == Mode::Digest,
    ensures
        ({
            let events = opening(refreshed, entries) + digest_events(entries, outcome);
            let given = answers(idle(settings), events);
            &&& state_after(idle(settings), events) == idle(settings)
            &&& deliveries(given) == digest_messages(settings, entries, outcome)
            &&& acknowledged(given) == digest_marked(entries, outcome)
        }),
{
    let start = idle(settings);
    let head = opening(refreshed, entries);
    let tail = digest_events(entries, outcome);
    lemma_opening(settings, refreshed, entries);
    lemma_batch(settings, entries, outcome);
    lemma_run_concat(start, head, tail);
    let middle = state_after(start, head);
    lemma_deliveries_concat(answers(start, head), answers(middle, tail));
    lemma_acknowledged_concat(answers(start, head), answers(middle, tail));
}

/// A batch whose delivery failed is still unread after the cycle.
///
/// In a cycle that handles its entries as a batch, nothing is asked to be
/// marked as read unless the summarizer's response held a digest and the
/// delivery of that digest succeeded.
pub proof fn law_undelivered_batch_stays_unread(
    settings: Settings,
    refreshed: bool,
    entries: Seq<EntryView>,
    outcome: BatchOutcome,
)
    requires
        settings.mode == Mode::Digest,
        !(digest_in(outcome) is Some && outcome.delivered),
    ensures
        acknowledged(
            answers(idle(settings), opening(refreshed, entries) + digest_events(entries, outcome)),
        ) == Seq::<u64>::empty(),
{
    law_digest_cycle(settings, refreshed, entries, outcome);
}

/// A batch that comes again is delivered again as it was.
///
/// Take two cycles, one after the other, that handle their entries as a
/// batch and are given the same unread entries. If the summarizer gives the
/// same response, the second cycle hands over the very message of the first,
/// whatever became of the refreshes, deliveries and markings in either.
pub proof fn law_digest_redelivery(
    settings: Settings,
    entries: Seq<EntryView>,
    first_refreshed: bool,
    first: BatchOutcome,
    second_refreshed: bool,
    second: BatchOutcome,
)
    requires
        settings.mode == Mode::Digest,
        first.summary == second.summary,
    ensures
        ({
            let once = opening(first_refreshed, entries) + digest_events(entries, first);
            let again = opening(second_refreshed, entries) + digest_events(entries, second);
            let messages = deliveries(answers(idle(settings), once));
            &&& state_after(idle(settings), once + again) == idle(settings)
            &&& deliveries(answers(idle(settings), once + again)) == messages + messages
        }),
{
    let start = idle(settings);
    let once = opening(first_refreshed, entries) + digest_events(entries, first);
    let again = opening(second_refreshed, entries) + digest_events(entries, second);
    law_digest_cycle(settings, first_refreshed, entries, first);
    law_digest_cycle(settings, second_refreshed, entries, second);
    lemma_run_concat(start, once, again);
    lemma_deliveries_concat(answers(start, once), answers(start, again));
}

/// Nothing to report is reported once, and marks nothing.
///
/// A cycle that handles its entries as a batch and finds no unread entry
/// hands over the notice that there is nothing new, and nothing else. It does
/// not call the summarizer and asks for nothing to be marked as read,
/// whether or not the notice could be delivered.
pub proof fn law_empty_batch(settings: Settings, refreshed: bool, delivered: bool)
    requires
        settings.mode == Mode::Digest,
    ensures
        ({
            let events = opening(refreshed, Seq::<EntryView>::empty()) + seq![
                EventView::Delivered { ok: delivered },
            ];
            let given = answers(idle(settings), events);
            &&& state_after(idle(settings), events) == idle(settings)
            &&& deliveries(given) == seq![no_news()]
            &&& acknowledged(given) == Seq::<u64>::empty()
            &&& given.len() == 4
            &&& forall|at: int| 0 <= at < 4 ==> !((#[trigger] given[at]).action is Summarize)
        }),
{
    let entries = Seq::<EntryView>::empty();
    let outcome = BatchOutcome { summary: None, delivered, marked: false };
    let start = idle(settings);
    let head = opening(refreshed, entries);
    let tail = seq![EventView::Delivered { ok: delivered }];
    law_digest_cycle(settings, refreshed, entries, outcome);
    lemma_opening(settings, refreshed, entries);
    lemma_run_concat(start, head, tail);
    lemma_run_one(state_after(start, head), tail[0]);
}

/// A response without a digest delivers nothing and marks nothing.
///
/// Take a cycle that handles its entries as a batch and whose summarizer
/// answers with a text that holds no digest: one that is no JSON document,
/// that has no member `news`, or whose `news` is no array. The cycle then
/// ends with that answer: it hands over no message, asks for nothing to be
/// marked as read, and its last answer carries the reason for the log.
pub proof fn law_unreadable_digest(
    settings: Settings,
    refreshed: bool,
    entries: Seq<EntryView>,
    response: Seq<char>,
)
    requires
        settings.mode == Mode::Digest,
        entries.len() > 0,
        digest_of(decoded(response)) is Err,
    ensures
        ({
            let events = opening(refreshed, entries) + seq![
                EventView::Summarized { response: Some(response) },
            ];
            let given = answers(idle(settings), events);
            &&& state_after(idle(settings), events) == idle(settings)
            &&& deliveries(given) == Seq::<Seq<char>>::empty()
            &&& acknowledged(given) == Seq::<u64>::empty()
            &&& given.len() == 4
            &&& given[3].action is Sleep
            &&& given[3].incident == Some(
                Incident::DigestUnreadable { error: digest_of(decoded(response))->Err_0 },
            )
        }),
{
    let outcome = BatchOutcome { summary: Some(response), delivered: false, marked: false };
    let start = idle(settings);
    let head = opening(refreshed, entries);
    let tail = seq![EventView::Summarized { response: Some(response) }];
    law_digest_cycle(settings, refreshed, entries, outcome);
    lemma_opening(settings, refreshed, entries);
    lemma_run_concat(start, head, tail);
    lemma_run_one(state_after(start, head), tail[0]);
}

/// A response without `news` delivers nothing and marks nothing.
///
/// Take a cycle that handles its entries as a batch and whose summarizer
/// answers with a JSON document that has no member `news`. The cycle ends
/// with that answer: it hands over no message, asks for nothing to be marked
/// as read, and its last answer says for the log that `news` is missing.
pub proof fn law_response_without_news(
    settings: Settings,
    refreshed: bool,
    entries: Seq<EntryView>,
    response: Seq<char>,
)
    requires
        settings.mode == Mode::Digest,
        entries.len() > 0,
        decoded(response) matches Some(document) && document.member("news"@) is None,
    ensures
        ({
            let events = opening(refreshed, entries) + seq![
                EventView::Summarized { response: Some(response) },
            ];
            let given = answers(idle(settings), events);
            &&& state_after(idle(settings), events) == idle(settings)
            &&& deliveries(given) == Seq::<Seq<char>>::empty()
            &&& acknowledged(given) == Seq::<u64>::empty()
            &&& given.len() == 4
            &&& given[3].action is Sleep
            &&& given[3].incident == Some(
                Incident::DigestUnreadable { error: DigestError::MissingNews },
            )
        }),
{
    law_unreadable_digest(settings, refreshed, entries, response);
}

/// A document without a member `news` holds no digest.
pub proof fn law_missing_news_is_no_digest(document: JsonView)
    requires
        document.member("news"@) is None,
    ensures
        digest_of(Some(document)) == Err::<Seq<DigestItemView>, DigestError>(
            DigestError::MissingNews,
        ),
{
}

/// An entry that is listed without a usable title is not rejected: it has
/// the title "No title", and that is the title it is delivered with. The
/// other fields have placeholders of their own.
pub proof fn law_placeholders(listed: JsonView)
    ensures
        listed.text_at("title"@) is None ==> entry_of(listed).title == "No title"@,
        listed.text_at("url"@) is None ==> entry_of(listed).url == "No URL"@,
        listed.text_at("content"@) is None ==> entry_of(listed).content == "No content"@,
        listed.text_at("author"@) is None ==> entry_of(listed).author == "No author"@,
        listed.text_at("published_at"@) is None ==> entry_of(listed).published_at
            == "No published_at"@,
        listed.member("feed"@) is None ==> entry_of(listed).feed_title == "No feed title"@,
        listed.unsigned_at("id"@) is None ==> entry_of(listed).id == 0,
{
}

} // verus!
