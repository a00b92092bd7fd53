//! The delivery pipeline: what to do next, given what the last step brought.
//!
//! A cycle refreshes the feeds, lists the unread entries, delivers them and
//! acknowledges what was delivered. The pipeline performs none of this
//! itself. It is a state machine: [`Pipeline::step`] takes the outcome of the
//! action it asked for last and answers with the next action. Its model is
//! [`next`], a function on [`PipelineView`] and [`EventView`].
//!
//! An entry is acknowledged only in answer to a delivery that succeeded, and
//! nothing of a cycle outlives it: between cycles the pipeline holds its
//! settings and nothing else.

use crate::digest::{
    batch_of, digest_of, digest_view, input_views, DigestError, DigestItem, DigestItemView,
    SummaryInput, SummaryInputView,
};
use crate::entry::{entry_ids, entry_views, text_or, Entry, EntryView};
use crate::json::decoded;
use crate::markup::{
    digest_markup, entry_markup, format_digest, format_entry, no_news, no_news_notice, Markup,
};
use vstd::prelude::*;

verus! {

/// How the entries of a cycle are handled.
#[derive(Debug, Clone, Copy, PartialEq, Eq, Structural)]
pub enum Mode {
    /// Each entry is delivered and acknowledged on its own.
    Direct,
    /// All entries are summarized into one message, and acknowledged
    /// together or not at all.
    Digest,
}

/// What is fixed when the pipeline is made.
#[derive(Debug, Clone, Copy, PartialEq, Eq, Structural)]
pub struct Settings {
    pub mode: Mode,
    pub markup: Markup,
    /// The pause between two cycles, in seconds.
    pub interval: u64,
    /// The most entries to list in one cycle, where there is a limit.
    pub limit: Option<u64>,
}

/// Something that went wrong in a step, for the log.
#[derive(Debug, Clone, Copy, PartialEq, Eq, Structural)]
pub enum Incident {
    /// The feeds could not be refreshed; the cycle goes on with what the
    /// feed source has.
    RefreshFailed,
    /// The unread entries could not be listed; the cycle ends.
    ListFailed,
    /// The full content of an entry could not be fetched; the entry is
    /// delivered without it.
    ContentFailed { entry_id: u64 },
    /// An entry could not be delivered; it stays unread.
    EntryNotDelivered { entry_id: u64 },
    /// A delivered entry could not be marked as read; it will come again.
    EntryNotAcknowledged { entry_id: u64 },
    /// The summarizer gave no response; the cycle ends.
    SummaryFailed,
    /// The summarizer's response holds no digest; the cycle ends.
    DigestUnreadable { error: DigestError },
    /// The digest could not be delivered; the batch stays unread.
    DigestNotDelivered,
    /// The delivered batch could not be marked as read; it will come again.
    BatchNotAcknowledged,
    /// The notice that there is nothing new could not be delivered.
    NoticeNotDelivered,
    /// The event does not answer the action that was asked for; the cycle
    /// ends.
    OutOfTurn,
}

/// How far an incident reaches.
#[derive(Debug, Clone, Copy, PartialEq, Eq, Structural)]
pub enum Severity {
    /// The cycle goes on, with less than it asked for.
    Transient,
    /// One entry is given up for this cycle; the others are not touched.
    EntryLocal,
    /// The cycle ends here; what it has not marked as read comes again.
    CycleFatal,
}

/// How far each incident reaches.
pub open spec fn severity_of(incident: Incident) -> Severity {
    match incident {
        Incident::RefreshFailed => Severity::Transient,
        Incident::ContentFailed { .. } => Severity::Transient,
        Incident::EntryNotDelivered { .. } => Severity::EntryLocal,
        Incident::EntryNotAcknowledged { .. } => Severity::EntryLocal,
        Incident::ListFailed => Severity::CycleFatal,
        Incident::SummaryFailed => Severity::CycleFatal,
        Incident::DigestUnreadable { .. } => Severity::CycleFatal,
        Incident::DigestNotDelivered => Severity::CycleFatal,
        Incident::BatchNotAcknowledged => Severity::CycleFatal,
        Incident::NoticeNotDelivered => Severity::CycleFatal,
        Incident::OutOfTurn => Severity::CycleFatal,
    }
}

impl Incident {
    /// How far this incident reaches.
    pub fn severity(&self) -> (severity: Severity)
        ensures
            severity == severity_of(*self),
    {
        match self {
            Incident::RefreshFailed => Severity::Transient,
            Incident::ContentFailed { .. } => Severity::Transient,
            Incident::EntryNotDelivered { .. } => Severity::EntryLocal,
            Incident::EntryNotAcknowledged { .. } => Severity::EntryLocal,
            Incident::ListFailed => Severity::CycleFatal,
            Incident::SummaryFailed => Severity::CycleFatal,
            Incident::DigestUnreadable { .. } => Severity::CycleFatal,
            Incident::DigestNotDelivered => Severity::CycleFatal,
            Incident::BatchNotAcknowledged => Severity::CycleFatal,
            Incident::NoticeNotDelivered => Severity::CycleFatal,
            Incident::OutOfTurn => Severity::CycleFatal,
        }
    }
}

/// The outcome of the action that the pipeline asked for last.
#[derive(Debug, Clone, PartialEq, Eq)]
pub enum Event {
    /// The pause is over, or the process has just started.
    Wake,
    /// The feed source was asked to refresh its feeds.
    Refreshed { ok: bool },
    /// The unread entries, or `None` where listing them failed.
    Listed { entries: Option<Vec<Entry>> },
    /// The full content of the entry asked for, or `None` where fetching it
    /// failed.
    ContentFetched { content: Option<String> },
    /// The summarizer's response, or `None` where the call failed.
    Summarized { response: Option<String> },
    /// The chat destination was given the message.
    Delivered { ok: bool },
    /// The feed source was asked to mark the entries as read.
    Acknowledged { ok: bool },
}

/// The mathematical model of an [`Event`].
pub enum EventView {
    Wake,
    Refreshed { ok: bool },
    Listed { entries: Option<Seq<EntryView>> },
    ContentFetched { content: Option<Seq<char>> },
    Summarized { response: Option<Seq<char>> },
    Delivered { ok: bool },
    Acknowledged { ok: bool },
}

impl View for Event {
    type V = EventView;

    open spec fn view(&self) -> EventView {
        match self {
            Event::Wake => EventView::Wake,
            Event::Refreshed { ok } => EventView::Refreshed { ok: *ok },
            Event::Listed { entries } => EventView::Listed {
                entries: match entries {
                    Some(list) => Some(entry_views(list@)),
                    None => None,
                },
            },
            Event::ContentFetched { content } => EventView::ContentFetched {
                content: match content {
                    Some(text) => Some(text@),
                    None => None,
                },
            },
            Event::Summarized { response } => EventView::Summarized {
                response: match response {
                    Some(text) => Some(text@),
                    None => None,
                },
            },
            Event::Delivered { ok } => EventView::Delivered { ok: *ok },
            Event::Acknowledged { ok } => EventView::Acknowledged { ok: *ok },
        }
    }
}

/// What the pipeline asks its caller to do.
#[derive(Debug, Clone, PartialEq, Eq)]
pub enum Action {
    /// Ask the feed source to refresh all feeds.
    RefreshFeeds,
    /// List the unread entries, at most `limit` of them where there is a
    /// limit.
    ListUnread { limit: Option<u64> },
    /// Fetch the full content of an entry.
    FetchContent { entry_id: u64 },
    /// Have the batch summarized.
    Summarize { batch: Vec<SummaryInput> },
    /// Deliver the message to the chat destination.
    Deliver { message: String },
    /// Mark these entries as read at the feed source.
    MarkRead { entry_ids: Vec<u64> },
    /// The cycle is over: pause, then wake the pipeline.
    Sleep { seconds: u64 },
}

/// The mathematical model of an [`Action`].
pub enum ActionView {
    RefreshFeeds,
    ListUnread { limit: Option<u64> },
    FetchContent { entry_id: u64 },
    Summarize { batch: Seq<SummaryInputView> },
    Deliver { message: Seq<char> },
    MarkRead { entry_ids: Seq<u64> },
    Sleep { seconds: u64 },
}

impl View for Action {
    type V = ActionView;

    open spec fn view(&self) -> ActionView {
        match self {
            Action::RefreshFeeds => ActionView::RefreshFeeds,
            Action::ListUnread { limit } => ActionView::ListUnread { limit: *limit },
            Action::FetchContent { entry_id } => ActionView::FetchContent { entry_id: *entry_id },
            Action::Summarize { batch } => ActionView::Summarize { batch: input_views(batch@) },
            Action::Deliver { message } => ActionView::Deliver { message: message@ },
            Action::MarkRead { entry_ids } => ActionView::MarkRead { entry_ids: entry_ids@ },
            Action::Sleep { seconds } => ActionView::Sleep { seconds: *seconds },
        }
    }
}

/// The answer of one step: the next action, and what there is to log.
#[derive(Debug, Clone, PartialEq, Eq)]
pub struct Directive {
    pub action: Action,
    pub incident: Option<Incident>,
}

/// The mathematical model of a [`Directive`].
pub struct DirectiveView {
    pub action: ActionView,
    pub incident: Option<Incident>,
}

impl View for Directive {
    type V = DirectiveView;

    open spec fn view(&self) -> DirectiveView {
        DirectiveView { action: self.action@, incident: self.incident }
    }
}

/// Where in a cycle the pipeline stands, with what it still needs of the
/// cycle's entries. Each phase but `Idle` waits for the outcome of one
/// action.
#[derive(Debug, Clone, PartialEq, Eq)]
pub enum Phase {
    /// Between two cycles.
    Idle,
    /// Waiting for the feeds to be refreshed.
    Refreshing,
    /// Waiting for the list of unread entries.
    Listing,
    /// Waiting for the full content of `current`; `rest` comes after it.
    FetchingContent { current: Entry, rest: Vec<Entry> },
    /// Waiting for the delivery of `current`.
    DeliveringEntry { current: Entry, rest: Vec<Entry> },
    /// Waiting for the entry that was delivered to be marked as read.
    AcknowledgingEntry { entry_id: u64, rest: Vec<Entry> },
    /// Waiting for the summary of `entries`.
    Summarizing { entries: Vec<Entry> },
    /// Waiting for the delivery of the digest made for `entries`.
    DeliveringDigest { entries: Vec<Entry> },
    /// Waiting for the batch that was delivered to be marked as read.
    AcknowledgingBatch,
    /// Waiting for the delivery of the notice that there is nothing new.
    DeliveringNotice,
}

/// The mathematical model of a [`Phase`].
pub enum PhaseView {
    Idle,
    Refreshing,
    Listing,
    FetchingContent { current: EntryView, rest: Seq<EntryView> },
    DeliveringEntry { current: EntryView, rest: Seq<EntryView> },
    AcknowledgingEntry { entry_id: u64, rest: Seq<EntryView> },
    Summarizing { entries: Seq<EntryView> },
    DeliveringDigest { entries: Seq<EntryView> },
    AcknowledgingBatch,
    DeliveringNotice,
}

impl View for Phase {
    type V = PhaseView;

    open spec fn view(&self) -> PhaseView {
        match self {
            Phase::Idle => PhaseView::Idle,
            Phase::Refreshing => PhaseView::Refreshing,
            Phase::Listing => PhaseView::Listing,
            Phase::FetchingContent { current, rest } => PhaseView::FetchingContent {
                current: current@,
                rest: entry_views(rest@),
            },
            Phase::DeliveringEntry { current, rest } => PhaseView::DeliveringEntry {
                current: current@,
                rest: entry_views(rest@),
            },
            Phase::AcknowledgingEntry { entry_id, rest } => PhaseView::AcknowledgingEntry {
                entry_id: *entry_id,
                rest: entry_views(rest@),
            },
            Phase::Summarizing { entries } => PhaseView::Summarizing {
                entries: entry_views(entries@),
            },
            Phase::DeliveringDigest { entries } => PhaseView::DeliveringDigest {
                entries: entry_views(entries@),
            },
            Phase::AcknowledgingBatch => PhaseView::AcknowledgingBatch,
            Phase::DeliveringNotice => PhaseView::DeliveringNotice,
        }
    }
}

/// The delivery pipeline.
#[derive(Debug, Clone, PartialEq, Eq)]
pub struct Pipeline {
    pub settings: Settings,
    pub phase: Phase,
}

/// The mathematical model of a [`Pipeline`].
pub struct PipelineView {
    pub settings: Settings,
    pub phase: PhaseView,
}

impl View for Pipeline {
    type V = PipelineView;

    open spec fn view(&self) -> PipelineView {
        PipelineView { settings: self.settings, phase: self.phase@ }
    }
}

/// A pipeline between two cycles.
pub open spec fn idle(settings: Settings) -> PipelineView {
    PipelineView { settings, phase: PhaseView::Idle }
}

/// The pipeline in another phase.
pub open spec fn turn(settings: Settings, phase: PhaseView) -> PipelineView {
    PipelineView { settings, phase }
}

/// An action with nothing to log.
pub open spec fn plain(action: ActionView) -> DirectiveView {
    DirectiveView { action, incident: None }
}

/// The incident to log when `ok` is false.
pub open spec fn unless(ok: bool, incident: Incident) -> Option<Incident> {
    if ok {
        None
    } else {
        Some(incident)
    }
}

/// The end of a cycle: the pipeline goes idle and asks for the pause.
pub open spec fn finish(settings: Settings, incident: Option<Incident>) -> (
    PipelineView,
    DirectiveView,
) {
    (
        idle(settings),
        DirectiveView { action: ActionView::Sleep { seconds: settings.interval }, incident },
    )
}

/// On to the entries that are left: the first of them is fetched, and
/// without any the cycle ends.
pub open spec fn advance(settings: Settings, rest: Seq<EntryView>, incident: Option<Incident>) -> (
    PipelineView,
    DirectiveView,
) {
    if rest.len() == 0 {
        finish(settings, incident)
    } else {
        (
            turn(
                settings,
                PhaseView::FetchingContent { current: rest[0], rest: rest.drop_first() },
            ),
            DirectiveView { action: ActionView::FetchContent { entry_id: rest[0].id }, incident },
        )
    }
}

/// What follows the list of unread entries.
///
/// Entries that are handled one by one start with the first. A batch goes to
/// the summarizer whole; an empty one is answered with the notice that there
/// is nothing new, without a call of the summarizer.
pub open spec fn after_listing(settings: Settings, entries: Seq<EntryView>) -> (
    PipelineView,
    DirectiveView,
) {
    match settings.mode {
        Mode::Direct => advance(settings, entries, None),
        Mode::Digest => if entries.len() == 0 {
            (
                turn(settings, PhaseView::DeliveringNotice),
                plain(ActionView::Deliver { message: no_news() }),
            )
        } else {
            (
                turn(settings, PhaseView::Summarizing { entries }),
                plain(ActionView::Summarize { batch: batch_of(entries) }),
            )
        },
    }
}

/// What follows the summarizer's response for `entries`, once it has been
/// read as a digest: a digest is delivered as one message, and a response
/// without one ends the cycle.
pub open spec fn after_digest(
    settings: Settings,
    entries: Seq<EntryView>,
    digest: Result<Seq<DigestItemView>, DigestError>,
) -> (PipelineView, DirectiveView) {
    match digest {
        Ok(items) => (
            turn(settings, PhaseView::DeliveringDigest { entries }),
            plain(ActionView::Deliver { message: digest_markup(settings.markup, items) }),
        ),
        Err(error) => finish(settings, Some(Incident::DigestUnreadable { error })),
    }
}

/// One step of the pipeline: the state after `event`, and the answer to it.
///
/// An event that does not answer the action asked for last ends the cycle.
pub open spec fn next(pipeline: PipelineView, event: EventView) -> (PipelineView, DirectiveView) {
    let settings = pipeline.settings;
    match (pipeline.phase, event) {
        (PhaseView::Idle, EventView::Wake) => (
            turn(settings, PhaseView::Refreshing),
            plain(ActionView::RefreshFeeds),
        ),
        (PhaseView::Refreshing, EventView::Refreshed { ok }) => (
            turn(settings, PhaseView::Listing),
            DirectiveView {
                action: ActionView::ListUnread { limit: settings.limit },
                incident: unless(ok, Incident::RefreshFailed),
            },
        ),
        (PhaseView::Listing, EventView::Listed { entries }) => match entries {
            Some(list) => after_listing(settings, list),
            None => finish(settings, Some(Incident::ListFailed)),
        },
        (PhaseView::FetchingContent { current, rest }, EventView::ContentFetched { content }) => (
            turn(settings, PhaseView::DeliveringEntry { current, rest }),
            DirectiveView {
                action: ActionView::Deliver {
                    message: entry_markup(settings.markup, current, text_or(content, Seq::empty())),
                },
                incident: unless(
                    content is Some,
                    Incident::ContentFailed { entry_id: current.id },
                ),
            },
        ),
        (PhaseView::DeliveringEntry { current, rest }, EventView::Delivered { ok }) => if ok {
            (
                turn(settings, PhaseView::AcknowledgingEntry { entry_id: current.id, rest }),
                plain(ActionView::MarkRead { entry_ids: seq![current.id] }),
            )
        } else {
            advance(settings, rest, Some(Incident::EntryNotDelivered { entry_id: current.id }))
        },
        (PhaseView::AcknowledgingEntry { entry_id, rest }, EventView::Acknowledged { ok }) => {
            advance(settings, rest, unless(ok, Incident::EntryNotAcknowledged { entry_id }))
        },
        (PhaseView::Summarizing { entries }, EventView::Summarized { response }) => match response {
            Some(text) => after_digest(settings, entries, digest_of(decoded(text))),
            None => finish(settings, Some(Incident::SummaryFailed)),
        },
        (PhaseView::DeliveringDigest { entries }, EventView::Delivered { ok }) => if ok {
            (
                turn(settings, PhaseView::AcknowledgingBatch),
                plain(ActionView::MarkRead { entry_ids: entry_ids(entries) }),
            )
        } else {
            finish(settings, Some(Incident::DigestNotDelivered))
        },
        (PhaseView::AcknowledgingBatch, EventView::Acknowledged { ok }) => finish(
            settings,
            unless(ok, Incident::BatchNotAcknowledged),
        ),
        (PhaseView::DeliveringNotice, EventView::Delivered { ok }) => finish(
            settings,
            unless(ok, Incident::NoticeNotDelivered),
        ),
        _ => finish(settings, Some(Incident::OutOfTurn)),
    }
}

/// The model of a pipeline and the directive it gave.
pub open spec fn outcome_view(outcome: (Pipeline, Directive)) -> (PipelineView, DirectiveView) {
    (outcome.0@, outcome.1@)
}

fn log_unless(ok: bool, incident: Incident) -> (logged: Option<Incident>)
    ensures
        logged == unless(ok, incident),
{
    if ok {
        None
    } else {
        Some(incident)
    }
}

fn ids_of(entries: &Vec<Entry>) -> (ids: Vec<u64>)
    ensures
        ids@ == entry_ids(entry_views(entries@)),
{
    let mut ids: Vec<u64> = Vec::new();
    let mut i: usize = 0;
    while i < entries.len()
        invariant
            i <= entries.len(),
            ids.len() == i,
            forall|j: int| 0 <= j < i ==> #[trigger] ids[j] == entries[j].id,
        decreases entries.len() - i,
    {
        ids.push(entries[i].id);
        i += 1;
    }
    ids
}

impl Pipeline {
    /// A pipeline that waits for its first cycle.
    pub fn new(settings: Settings) -> (pipeline: Pipeline)
        ensures
            pipeline@ == idle(settings),
    {
        Pipeline { settings, phase: Phase::Idle }
    }

    /// Whether the pipeline stands between two cycles.
    pub fn is_idle(&self) -> (idle: bool)
        ensures
            idle == (self@.phase is Idle),
    {
        match self.phase {
            Phase::Idle => true,
            _ => false,
        }
    }

    fn finish(settings: Settings, incident: Option<Incident>) -> (outcome: (Pipeline, Directive))
        ensures
            outcome_view(outcome) == finish(settings, incident),
    {
        (
            Pipeline { settings, phase: Phase::Idle },
            Directive { action: Action::Sleep { seconds: settings.interval }, incident },
        )
    }

    fn advance(settings: Settings, rest: Vec<Entry>, incident: Option<Incident>) -> (outcome: (
        Pipeline,
        Directive,
    ))
        ensures
            outcome_view(outcome) == advance(settings, entry_views(rest@), incident),
    {
        let mut rest = rest;
        if rest.len() == 0 {
            Self::finish(settings, incident)
        } else {
            let ghost before = rest@;
            let current = rest.remove(0);
            assert(entry_views(rest@) =~= entry_views(before).drop_first());
            let entry_id = current.id;
            (
                Pipeline { settings, phase: Phase::FetchingContent { current, rest } },
                Directive { action: Action::FetchContent { entry_id }, incident },
            )
        }
    }

    fn after_listing(settings: Settings, entries: Vec<Entry>) -> (outcome: (Pipeline, Directive))
        ensures
            outcome_view(outcome) == after_listing(settings, entry_views(entries@)),
    {
        match settings.mode {
            Mode::Direct => Self::advance(settings, entries, None),
            Mode::Digest => {
                if entries.len() == 0 {
                    (
                        Pipeline { settings, phase: Phase::DeliveringNotice },
                        Directive {
                            action: Action::Deliver { message: no_news_notice() },
                            incident: None,
                        },
                    )
                } else {
                    let batch = SummaryInput::batch(&entries);
                    (
                        Pipeline { settings, phase: Phase::Summarizing { entries } },
                        Directive { action: Action::Summarize { batch }, incident: None },
                    )
                }
            },
        }
    }

    /// What follows the summarizer's response for `entries`, once it has been
    /// read as a digest.
    ///
    /// A digest, also one without items, is formatted and handed over for
    /// delivery, and the pipeline then waits for that delivery with
    /// `entries` as the batch to acknowledge. Without a digest the cycle
    /// ends: nothing is delivered, nothing is acknowledged, and the error is
    /// there to be logged.
    pub fn after_digest(
        settings: Settings,
        entries: Vec<Entry>,
        digest: Result<Vec<DigestItem>, DigestError>,
    ) -> (outcome: (Pipeline, Directive))
        ensures
            outcome_view(outcome) == after_digest(
                settings,
                entry_views(entries@),
                digest_view(digest),
            ),
    {
        match digest {
            Ok(items) => {
                let message = format_digest(settings.markup, &items);
                (
                    Pipeline { settings, phase: Phase::DeliveringDigest { entries } },
                    Directive { action: Action::Deliver { message }, incident: None },
                )
            },
            Err(error) => Self::finish(settings, Some(Incident::DigestUnreadable { error })),
        }
    }

    /// Takes the outcome of the action asked for last and answers with the
    /// next one.
    ///
    /// The pipeline and its answer are those of [`next`]. In particular the
    /// answer is `MarkRead` only where `event` reports a delivery that
    /// succeeded, and then for the entries of that delivery alone.
    pub fn step(self, event: Event) -> (outcome: (Pipeline, Directive))
        ensures
            outcome_view(outcome) == next(self@, event@),
    {
        let settings = self.settings;
        match self.phase {
            Phase::Idle => match event {
                Event::Wake => (
                    Pipeline { settings, phase: Phase::Refreshing },
                    Directive { action: Action::RefreshFeeds, incident: None },
                ),
                _ => Self::finish(settings, Some(Incident::OutOfTurn)),
            },
            Phase::Refreshing => match event {
                Event::Refreshed { ok } => (
                    Pipeline { settings, phase: Phase::Listing },
                    Directive {
                        action: Action::ListUnread { limit: settings.limit },
                        incident: log_unless(ok, Incident::RefreshFailed),
                    },
                ),
                _ => Self::finish(settings, Some(Incident::OutOfTurn)),
            },
            Phase::Listing => match event {
                Event::Listed { entries } => match entries {
                    Some(list) => Self::after_listing(settings, list),
                    None => Self::finish(settings, Some(Incident::ListFailed)),
                },
                _ => Self::finish(settings, Some(Incident::OutOfTurn)),
            },
            Phase::FetchingContent { current, rest } => match event {
                Event::ContentFetched { content } => {
                    let incident = log_unless(
                        content.is_some(),
                        Incident::ContentFailed { entry_id: current.id },
                    );
                    let message = match content {
                        Some(full) => format_entry(settings.markup, &current, full.as_str()),
                        None => {
                            proof {
                                reveal_strlit("");
                            }
                            format_entry(settings.markup, &current, "")
                        },
                    };
                    (
                        Pipeline { settings, phase: Phase::DeliveringEntry { current, rest } },
                        Directive { action: Action::Deliver { message }, incident },
                    )
                },
                _ => Self::finish(settings, Some(Incident::OutOfTurn)),
            },
            Phase::DeliveringEntry { current, rest } => match event {
                Event::Delivered { ok } => {
                    let entry_id = current.id;
                    if ok {
                        let mut entry_ids: Vec<u64> = Vec::new();
                        entry_ids.push(entry_id);
                        (
                            Pipeline {
                                settings,
                                phase: Phase::AcknowledgingEntry { entry_id, rest },
                            },
                            Directive { action: Action::MarkRead { entry_ids }, incident: None },
                        )
                    } else {
                        Self::advance(
                            settings,
                            rest,
                            Some(Incident::EntryNotDelivered { entry_id }),
                        )
                    }
                },
                _ => Self::finish(settings, Some(Incident::OutOfTurn)),
            },
            Phase::AcknowledgingEntry { entry_id, rest } => match event {
                Event::Acknowledged { ok } => Self::advance(
                    settings,
                    rest,
                    log_unless(ok, Incident::EntryNotAcknowledged { entry_id }),
                ),
                _ => Self::finish(settings, Some(Incident::OutOfTurn)),
            },
            Phase::Summarizing { entries } => match event {
                Event::Summarized { response } => match response {
                    Some(text) => {
                        let digest = DigestItem::list_from_text(text.as_str());
                        Self::after_digest(settings, entries, digest)
                    },
                    None => Self::finish(settings, Some(Incident::SummaryFailed)),
                },
                _ => Self::finish(settings, Some(Incident::OutOfTurn)),
            },
            Phase::DeliveringDigest { entries } => match event {
                Event::Delivered { ok } => {
                    if ok {
                        let entry_ids = ids_of(&entries);
                        (
                            Pipeline { settings, phase: Phase::AcknowledgingBatch },
                            Directive { action: Action::MarkRead { entry_ids }, incident: None },
                        )
                    } else {
                        Self::finish(settings, Some(Incident::DigestNotDelivered))
                    }
                },
                _ => Self::finish(settings, Some(Incident::OutOfTurn)),
            },
            Phase::AcknowledgingBatch => match event {
                Event::Acknowledged { ok } => Self::finish(
                    settings,
                    log_unless(ok, Incident::BatchNotAcknowledged),
                ),
                _ => Self::finish(settings, Some(Incident::OutOfTurn)),
            },
            Phase::DeliveringNotice => match event {
                Event::Delivered { ok } => Self::finish(
                    settings,
                    log_unless(ok, Incident::NoticeNotDelivered),
                ),
                _ => Self::finish(settings, Some(Incident::OutOfTurn)),
            },
        }
    }
}

} // verus!
