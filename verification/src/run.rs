//! Runs of the pipeline.
//!
//! A run is a pipeline and the events it is given, one after the other. The
//! functions here name what a run leaves behind: the state it ends in, the
//! answers it gave, the messages it handed over for delivery and the entries
//! it asked to have marked as read. The feed source marks an entry as read
//! only when it is asked to, so an entry that no answer of a cycle names is
//! still unread after it.

use crate::pipeline::{next, ActionView, DirectiveView, EventView, PipelineView};
use vstd::prelude::*;

verus! {

/// The state of `pipeline` after `events`.
pub open spec fn state_after(pipeline: PipelineView, events: Seq<EventView>) -> PipelineView
    decreases events.len(),
{
    if events.len() == 0 {
        pipeline
    } else {
        state_after(next(pipeline, events[0]).0, events.drop_first())
    }
}

/// The answers that `pipeline` gives to `events`, one for each event.
pub open spec fn answers(pipeline: PipelineView, events: Seq<EventView>) -> Seq<DirectiveView>
    decreases events.len(),
{
    if events.len() == 0 {
        Seq::empty()
    } else {
        seq![next(pipeline, events[0]).1] + answers(
            next(pipeline, events[0]).0,
            events.drop_first(),
        )
    }
}

/// The state before the event at `at`.
pub open spec fn state_before(
    pipeline: PipelineView,
    events: Seq<EventView>,
    at: int,
) -> PipelineView {
    state_after(pipeline, events.take(at))
}

/// The message that an answer hands over for delivery, if it does.
pub open spec fn delivery(answer: DirectiveView) -> Seq<Seq<char>> {
    match answer.action {
        ActionView::Deliver { message } => seq![message],
        _ => Seq::empty(),
    }
}

/// The entries that an answer asks to have marked as read.
pub open spec fn acknowledgement(answer: DirectiveView) -> Seq<u64> {
    match answer.action {
        ActionView::MarkRead { entry_ids } => entry_ids,
        _ => Seq::empty(),
    }
}

/// The messages handed over for delivery by a list of answers, in order.
pub open spec fn deliveries(given: Seq<DirectiveView>) -> Seq<Seq<char>>
    decreases given.len(),
{
    if given.len() == 0 {
        Seq::empty()
    } else {
        delivery(given[0]) + deliveries(given.drop_first())
    }
}

/// The entries that a list of answers asks to have marked as read, in order.
pub open spec fn acknowledged(given: Seq<DirectiveView>) -> Seq<u64>
    decreases given.len(),
{
    if given.len() == 0 {
        Seq::empty()
    } else {
        acknowledgement(given[0]) + acknowledged(given.drop_first())
    }
}

pub(crate) proof fn lemma_answers_len(pipeline: PipelineView, events: Seq<EventView>)
    ensures
        answers(pipeline, events).len() == events.len(),
    decreases events.len(),
{
    if events.len() > 0 {
        lemma_answers_len(next(pipeline, events[0]).0, events.drop_first());
    }
}

pub(crate) proof fn lemma_settings_kept(pipeline: PipelineView, events: Seq<EventView>)
    ensures
        state_after(pipeline, events).settings == pipeline.settings,
    decreases events.len(),
{
    if events.len() > 0 {
        lemma_settings_kept(next(pipeline, events[0]).0, events.drop_first());
    }
}

pub(crate) proof fn lemma_run_concat(
    pipeline: PipelineView,
    first: Seq<EventView>,
    second: Seq<EventView>,
)
    ensures
        state_after(pipeline, first + second) == state_after(
            state_after(pipeline, first),
            second,
        ),
        answers(pipeline, first + second) == answers(pipeline, first) + answers(
            state_after(pipeline, first),
            second,
        ),
    decreases first.len(),
{
    if first.len() > 0 {
        let all = first + second;
        assert(all.drop_first() =~= first.drop_first() + second);
        lemma_run_concat(next(pipeline, first[0]).0, first.drop_first(), second);
    }
}

pub(crate) proof fn lemma_answer_at(pipeline: PipelineView, events: Seq<EventView>, at: int)
    requires
        0 <= at < events.len(),
    ensures
        answers(pipeline, events).len() == events.len(),
        answers(pipeline, events)[at] == next(state_before(pipeline, events, at), events[at]).1,
        state_before(pipeline, events, at + 1) == next(
            state_before(pipeline, events, at),
            events[at],
        ).0,
    decreases events.len(),
{
    lemma_answers_len(pipeline, events);
    let after = next(pipeline, events[0]).0;
    let rest = events.drop_first();
    if at == 0 {
        let one = events.take(1);
        assert(state_after(pipeline, one) == state_after(after, one.drop_first()));
    } else {
        lemma_answer_at(after, rest, at - 1);
        let head = events.take(at);
        assert(head.drop_first() =~= rest.take(at - 1));
        let longer = events.take(at + 1);
        assert(longer.drop_first() =~= rest.take(at));
    }
}

pub(crate) proof fn lemma_run_one(pipeline: PipelineView, event: EventView)
    ensures
        state_after(pipeline, seq![event]) == next(pipeline, event).0,
        answers(pipeline, seq![event]) == seq![next(pipeline, event).1],
        deliveries(seq![next(pipeline, event).1]) == delivery(next(pipeline, event).1),
        acknowledged(seq![next(pipeline, event).1]) == acknowledgement(next(pipeline, event).1),
{
    let events = seq![event];
    let after = next(pipeline, event);
    assert(state_after(after.0, events.drop_first()) == after.0);
    assert(answers(after.0, events.drop_first()) =~= Seq::<DirectiveView>::empty());
    let given = seq![after.1];
    assert(deliveries(given.drop_first()) =~= Seq::<Seq<char>>::empty());
    assert(acknowledged(given.drop_first()) =~= Seq::<u64>::empty());
}

pub(crate) proof fn lemma_run_two(pipeline: PipelineView, first: EventView, second: EventView)
    ensures
        state_after(pipeline, seq![first, second]) == next(next(pipeline, first).0, second).0,
        answers(pipeline, seq![first, second]) == seq![
            next(pipeline, first).1,
            next(next(pipeline, first).0, second).1,
        ],
{
    let events = seq![first, second];
    let tail = events.drop_first();
    let after = next(pipeline, first).0;
    let last = next(after, second).0;
    assert(state_after(last, tail.drop_first()) == last);
    assert(state_after(after, tail) == last);
    assert(answers(last, tail.drop_first()) =~= Seq::<DirectiveView>::empty());
    assert(answers(after, tail) =~= seq![next(after, second).1]);
}

pub(crate) proof fn lemma_run_three(
    pipeline: PipelineView,
    first: EventView,
    second: EventView,
    third: EventView,
)
    ensures
        state_after(pipeline, seq![first, second, third]) == next(
            next(next(pipeline, first).0, second).0,
            third,
        ).0,
        answers(pipeline, seq![first, second, third]) == seq![
            next(pipeline, first).1,
            next(next(pipeline, first).0, second).1,
            next(next(next(pipeline, first).0, second).0, third).1,
        ],
{
    let events = seq![first, second, third];
    assert(events.drop_first() =~= seq![second, third]);
    lemma_run_two(next(pipeline, first).0, second, third);
}

pub(crate) proof fn lemma_deliveries_concat(first: Seq<DirectiveView>, second: Seq<DirectiveView>)
    ensures
        deliveries(first + second) == deliveries(first) + deliveries(second),
    decreases first.len(),
{
    if first.len() > 0 {
        let all = first + second;
        assert(all.drop_first() =~= first.drop_first() + second);
        lemma_deliveries_concat(first.drop_first(), second);
    }
}

pub(crate) proof fn lemma_acknowledged_concat(
    first: Seq<DirectiveView>,
    second: Seq<DirectiveView>,
)
    ensures
        acknowledged(first + second) == acknowledged(first) + acknowledged(second),
    decreases first.len(),
{
    if first.len() > 0 {
        let all = first + second;
        assert(all.drop_first() =~= first.drop_first() + second);
        lemma_acknowledged_concat(first.drop_first(), second);
    }
}

pub(crate) proof fn lemma_tally_two(first: DirectiveView, second: DirectiveView)
    ensures
        deliveries(seq![first, second]) == delivery(first) + delivery(second),
        acknowledged(seq![first, second]) == acknowledgement(first) + acknowledgement(second),
{
    let given = seq![first, second];
    let tail = given.drop_first();
    assert(deliveries(tail.drop_first()) =~= Seq::<Seq<char>>::empty());
    assert(acknowledged(tail.drop_first()) =~= Seq::<u64>::empty());
    assert(deliveries(tail) =~= delivery(second));
    assert(acknowledged(tail) =~= acknowledgement(second));
}

pub(crate) proof fn lemma_tally_three(
    first: DirectiveView,
    second: DirectiveView,
    third: DirectiveView,
)
    ensures
        deliveries(seq![first, second, third]) == delivery(first) + delivery(second) + delivery(
            third,
        ),
        acknowledged(seq![first, second, third]) == acknowledgement(first) + acknowledgement(
            second,
        ) + acknowledgement(third),
{
    let given = seq![first, second, third];
    assert(given.drop_first() =~= seq![second, third]);
    lemma_tally_two(second, third);
}

} // verus!
