//! One cycle of the pipeline as a state machine. The machine decides; its
//! driver performs each action and hands the outcome back as the next event.

use vstd::prelude::*;
use crate::batch::{batched, batch_views, split_batches};
use crate::embed::{Embed, EmbedView, embed_views, embeds_of, create_embeds};
use crate::endpoint::{
    Endpoint,
    EndpointView,
    DeliveryCall,
    DeliveryCallView,
    endpoint_views,
    call_views,
    planned_calls,
    plan_calls,
};
use crate::errors::{SipError, SipErrorView};
use crate::extract::{extract_posts, page_history};
use crate::history::{History, HistoryView};
use crate::novelty::{delivery, resolve_novelty};

verus! {

/// Where a cycle stands. `Idle` waits for the timer; every other stage is
/// part of a running cycle and waits for the outcome of one action.
#[derive(Debug)]
pub enum CycleStage {
    Idle,
    /// The persisted history was asked for.
    ReadingHistory,
    /// The page was asked for; `old` is the history read before.
    Fetching { old: History },
    /// The store was told to take `fresh` in place of `old`.
    Persisting { old: History, fresh: History },
    /// The endpoint registry was asked for; `batches` wait for delivery.
    ReadingEndpoints { batches: Vec<Vec<Embed>> },
}

/// What the driver reports to the machine.
#[derive(Debug)]
pub enum CycleEvent {
    /// The timer fired.
    Tick,
    /// The persisted history of both categories, or why it cannot be read.
    HistoryRead(Result<History, SipError>),
    /// What the page yielded, or why it was not fetched or not understood.
    Extracted(Result<History, SipError>),
    /// Whether the store took the new history.
    HistoryWritten(Result<(), SipError>),
    /// The endpoints registered at this moment.
    EndpointsRead(Vec<Endpoint>),
}

/// What the machine asks of the driver.
#[derive(Debug)]
pub enum CycleAction {
    /// Nothing: the event does not belong to the stage.
    Ignore,
    /// Read the persisted history of both categories.
    ReadHistory,
    /// Fetch the page and extract its posts.
    FetchPage,
    /// Replace the persisted history of both categories by this one.
    WriteHistory(History),
    /// Read the endpoint registry.
    ReadEndpoints,
    /// Make these calls, each with the batch that it names; a call that
    /// fails is logged and the rest are made all the same.
    Deliver { batches: Vec<Vec<Embed>>, calls: Vec<DeliveryCall> },
    /// The cycle is given up for this reason; log it and wait for the timer.
    Abandon(SipError),
    /// The cycle is over with nothing to deliver; wait for the timer.
    Rest,
}

/// A stage as plain mathematical values.
pub enum CycleStageView {
    Idle,
    ReadingHistory,
    Fetching { old: HistoryView },
    Persisting { old: HistoryView, fresh: HistoryView },
    ReadingEndpoints { batches: Seq<Seq<EmbedView>> },
}

/// An event as plain mathematical values.
pub enum CycleEventView {
    Tick,
    HistoryRead(Result<HistoryView, SipErrorView>),
    Extracted(Result<HistoryView, SipErrorView>),
    HistoryWritten(Result<(), SipErrorView>),
    EndpointsRead(Seq<EndpointView>),
}

/// An action as plain mathematical values.
pub enum CycleActionView {
    Ignore,
    ReadHistory,
    FetchPage,
    WriteHistory(HistoryView),
    ReadEndpoints,
    Deliver { batches: Seq<Seq<EmbedView>>, calls: Seq<DeliveryCallView> },
    Abandon(SipErrorView),
    Rest,
}

/// The payloads of a sequence of batches, batch by batch.
pub open spec fn payload_views(batches: Seq<Vec<Embed>>) -> Seq<Seq<EmbedView>> {
    batches.map_values(|b: Vec<Embed>| embed_views(b@))
}

/// A result of a history as plain mathematical values.
pub open spec fn history_result_view(r: Result<History, SipError>) -> Result<
    HistoryView,
    SipErrorView,
> {
    match r {
        Ok(history) => Ok(history@),
        Err(e) => Err(e@),
    }
}

impl View for CycleStage {
    type V = CycleStageView;

    open spec fn view(&self) -> CycleStageView {
        match self {
            CycleStage::Idle => CycleStageView::Idle,
            CycleStage::ReadingHistory => CycleStageView::ReadingHistory,
            CycleStage::Fetching { old } => CycleStageView::Fetching { old: old@ },
            CycleStage::Persisting { old, fresh } => CycleStageView::Persisting {
                old: old@,
                fresh: fresh@,
            },
            CycleStage::ReadingEndpoints { batches } => CycleStageView::ReadingEndpoints {
                batches: payload_views(batches@),
            },
        }
    }
}

impl View for CycleEvent {
    type V = CycleEventView;

    open spec fn view(&self) -> CycleEventView {
        match self {
            CycleEvent::Tick => CycleEventView::Tick,
            CycleEvent::HistoryRead(r) => CycleEventView::HistoryRead(history_result_view(*r)),
            CycleEvent::Extracted(r) => CycleEventView::Extracted(history_result_view(*r)),
            CycleEvent::HistoryWritten(r) => CycleEventView::HistoryWritten(
                match r {
                    Ok(_) => Ok(()),
                    Err(e) => Err(e@),
                },
            ),
            CycleEvent::EndpointsRead(endpoints) => CycleEventView::EndpointsRead(
                endpoint_views(endpoints@),
            ),
        }
    }
}

impl View for CycleAction {
    type V = CycleActionView;

    open spec fn view(&self) -> CycleActionView {
        match self {
            CycleAction::Ignore => CycleActionView::Ignore,
            CycleAction::ReadHistory => CycleActionView::ReadHistory,
            CycleAction::FetchPage => CycleActionView::FetchPage,
            CycleAction::WriteHistory(history) => CycleActionView::WriteHistory(history@),
            CycleAction::ReadEndpoints => CycleActionView::ReadEndpoints,
            CycleAction::Deliver { batches, calls } => CycleActionView::Deliver {
                batches: payload_views(batches@),
                calls: call_views(calls@),
            },
            CycleAction::Abandon(e) => CycleActionView::Abandon(e@),
            CycleAction::Rest => CycleActionView::Rest,
        }
    }
}

impl CycleStageView {
    /// Whether a cycle is in progress.
    pub open spec fn running(self) -> bool {
        !(self is Idle)
    }
}

/// The batches that a cycle delivers: the delivery sequence of the old and
/// the fresh history, rendered and cut into batches.
pub open spec fn cycle_batches(old: HistoryView, fresh: HistoryView) -> Seq<Seq<EmbedView>> {
    batched(embeds_of(delivery(old.general, old.important, fresh.general, fresh.important)))
}

/// The transition of the machine: the stage that follows and the action
/// that the driver is asked for.
///
/// A tick starts a cycle only from `Idle`. Each stage takes the one event
/// that answers its action; any failure ends the cycle without a write and
/// without a delivery. The fresh history is written before anything is
/// delivered, and whatever the delivery brings. Nothing is delivered where
/// no endpoint is registered or no batch is left.
pub open spec fn next(stage: CycleStageView, event: CycleEventView) -> (
    CycleStageView,
    CycleActionView,
) {
    match (stage, event) {
        (CycleStageView::Idle, CycleEventView::Tick) => (
            CycleStageView::ReadingHistory,
            CycleActionView::ReadHistory,
        ),
        (CycleStageView::ReadingHistory, CycleEventView::HistoryRead(Ok(old))) => (
            CycleStageView::Fetching { old },
            CycleActionView::FetchPage,
        ),
        (CycleStageView::ReadingHistory, CycleEventView::HistoryRead(Err(e))) => (
            CycleStageView::Idle,
            CycleActionView::Abandon(e),
        ),
        (CycleStageView::Fetching { old }, CycleEventView::Extracted(Ok(fresh))) => (
            CycleStageView::Persisting { old, fresh },
            CycleActionView::WriteHistory(fresh),
        ),
        (CycleStageView::Fetching { old }, CycleEventView::Extracted(Err(e))) => (
            CycleStageView::Idle,
            CycleActionView::Abandon(e),
        ),
        (CycleStageView::Persisting { old, fresh }, CycleEventView::HistoryWritten(Ok(_))) => (
            CycleStageView::ReadingEndpoints { batches: cycle_batches(old, fresh) },
            CycleActionView::ReadEndpoints,
        ),
        (CycleStageView::Persisting { old, fresh }, CycleEventView::HistoryWritten(Err(e))) => (
            CycleStageView::Idle,
            CycleActionView::Abandon(e),
        ),
        (
            CycleStageView::ReadingEndpoints { batches },
            CycleEventView::EndpointsRead(endpoints),
        ) => if endpoints.len() == 0 || batches.len() == 0 {
            (CycleStageView::Idle, CycleActionView::Rest)
        } else {
            (
                CycleStageView::Idle,
                CycleActionView::Deliver {
                    batches,
                    calls: planned_calls(endpoints, batches.len()),
                },
            )
        },
        (stage, _) => (stage, CycleActionView::Ignore),
    }
}

/// Computes, renders and batches what a cycle delivers.
pub fn prepare_batches(old: &History, fresh: &History) -> (batches: Vec<Vec<Embed>>)
    ensures
        payload_views(batches@) == cycle_batches(old@, fresh@),
{
    let posts = resolve_novelty(&old.general, &old.important, &fresh.general, &fresh.important);
    let embeds = create_embeds(posts);
    let batches = split_batches(embeds);
    proof {
        let expected = cycle_batches(old@, fresh@);
        lemma_batched_views(embeds@);
        assert(payload_views(batches@) =~= expected) by {
            assert(batch_views(batches@) == batched(embeds@));
            assert forall|k: int| 0 <= k < batches@.len() implies #[trigger] payload_views(
                batches@,
            )[k] == expected[k] by {
                assert(batch_views(batches@)[k] == batches@[k]@);
            }
        }
    }
    batches
}

/// Cutting into batches and taking views can be done in either order.
proof fn lemma_batched_views(embeds: Seq<Embed>)
    ensures
        batched(embeds).len() == batched(embed_views(embeds)).len(),
        forall|k: int|
            0 <= k < batched(embeds).len() ==> embed_views(#[trigger] batched(embeds)[k])
                == batched(embed_views(embeds))[k],
{
    assert forall|k: int| 0 <= k < batched(embeds).len() implies embed_views(
        #[trigger] batched(embeds)[k],
    ) == batched(embed_views(embeds))[k] by {
        assert(embed_views(batched(embeds)[k]) =~= batched(embed_views(embeds))[k]);
    }
}

/// Advances the machine by one event.
pub fn step(stage: CycleStage, event: CycleEvent) -> (r: (CycleStage, CycleAction))
    ensures
        (r.0@, r.1@) == next(stage@, event@),
{
    match (stage, event) {
        (CycleStage::Idle, CycleEvent::Tick) => (
            CycleStage::ReadingHistory,
            CycleAction::ReadHistory,
        ),
        (CycleStage::ReadingHistory, CycleEvent::HistoryRead(Ok(old))) => (
            CycleStage::Fetching { old },
            CycleAction::FetchPage,
        ),
        (CycleStage::ReadingHistory, CycleEvent::HistoryRead(Err(e))) => (
            CycleStage::Idle,
            CycleAction::Abandon(e),
        ),
        (CycleStage::Fetching { old }, CycleEvent::Extracted(Ok(fresh))) => {
            let copy = fresh.clone();
            (CycleStage::Persisting { old, fresh }, CycleAction::WriteHistory(copy))
        },
        (CycleStage::Fetching { old }, CycleEvent::Extracted(Err(e))) => (
            CycleStage::Idle,
            CycleAction::Abandon(e),
        ),
        (CycleStage::Persisting { old, fresh }, CycleEvent::HistoryWritten(Ok(_))) => {
            let batches = prepare_batches(&old, &fresh);
            (CycleStage::ReadingEndpoints { batches }, CycleAction::ReadEndpoints)
        },
        (CycleStage::Persisting { old, fresh }, CycleEvent::HistoryWritten(Err(e))) => (
            CycleStage::Idle,
            CycleAction::Abandon(e),
        ),
        (CycleStage::ReadingEndpoints { batches }, CycleEvent::EndpointsRead(endpoints)) => {
            if endpoints.len() == 0 || batches.len() == 0 {
                (CycleStage::Idle, CycleAction::Rest)
            } else {
                let calls = plan_calls(&endpoints, batches.len());
                (CycleStage::Idle, CycleAction::Deliver { batches, calls })
            }
        },
        (stage, _) => (stage, CycleAction::Ignore),
    }
}

/// Turns the outcome of the fetch into the event that the machine takes:
/// a page that arrived is extracted, a failure is passed on as it is.
pub fn extraction_event(fetched: Result<String, SipError>) -> (event: CycleEvent)
    ensures
        event is Extracted,
        fetched matches Err(e) ==> event@ == CycleEventView::Extracted(Err(e@)),
        fetched matches Ok(html) ==> event@ == CycleEventView::Extracted(page_history(html@)),
{
    match fetched {
        Ok(html) => CycleEvent::Extracted(extract_posts(html.as_str())),
        Err(e) => CycleEvent::Extracted(Err(e)),
    }
}

/// Whether the event reports a failure of the action that the stage waits for.
pub open spec fn reports_failure(stage: CycleStageView, event: CycleEventView) -> bool {
    ||| stage is ReadingHistory && event matches CycleEventView::HistoryRead(Err(_))
    ||| stage is Fetching && event matches CycleEventView::Extracted(Err(_))
    ||| stage is Persisting && event matches CycleEventView::HistoryWritten(Err(_))
}

/// Any failure inside a cycle ends it: the machine returns to `Idle` and asks
/// for nothing but to give the cycle up. No history is written and no
/// delivery is made on that account.
pub proof fn lemma_failure_ends_cycle(stage: CycleStageView, event: CycleEventView)
    requires
        reports_failure(stage, event),
    ensures
        next(stage, event).0 is Idle,
        next(stage, event).1 is Abandon,
{
}

/// A page that does not yield both categories leaves the history as it is:
/// the machine asks for no write and goes back to waiting.
pub proof fn lemma_failed_extraction_writes_nothing(old: HistoryView, fault: SipErrorView)
    ensures
        next(CycleStageView::Fetching { old }, CycleEventView::Extracted(Err(fault))) == (
            CycleStageView::Idle,
            CycleActionView::Abandon(fault),
        ),
{
}

/// Cycles do not overlap: a tick that arrives while a cycle runs changes
/// nothing and asks for nothing.
pub proof fn lemma_tick_while_running_is_ignored(stage: CycleStageView)
    requires
        stage.running(),
    ensures
        next(stage, CycleEventView::Tick) == (stage, CycleActionView::Ignore),
{
}

/// The fresh history replaces the old one in full, whatever the old one
/// held and whatever is delivered later.
pub proof fn lemma_history_overwritten(old: HistoryView, fresh: HistoryView)
    ensures
        next(CycleStageView::Fetching { old }, CycleEventView::Extracted(Ok(fresh))).1
            == CycleActionView::WriteHistory(fresh),
{
}

/// The machine asks for a write only when a page has just been extracted,
/// and for a delivery only when the endpoints have just been read: the
/// write of a cycle always comes before its delivery.
pub proof fn lemma_write_then_deliver(stage: CycleStageView, event: CycleEventView)
    ensures
        next(stage, event).1 is WriteHistory ==> stage is Fetching && next(stage, event).0
            is Persisting,
        next(stage, event).1 is Deliver ==> stage is ReadingEndpoints && next(stage, event).0
            is Idle,
{
}

/// The course of the machine over a sequence of events: the stage that it
/// reaches, and the actions that it asks for, one for each event.
pub open spec fn run(stage: CycleStageView, events: Seq<CycleEventView>) -> (
    CycleStageView,
    Seq<CycleActionView>,
)
    decreases events.len(),
{
    if events.len() == 0 {
        (stage, Seq::empty())
    } else {
        let before = run(stage, events.drop_last());
        let step = next(before.0, events.last());
        (step.0, before.1.push(step.1))
    }
}

/// The events of one cycle in which every action succeeds.
pub open spec fn smooth_cycle(
    old: HistoryView,
    fresh: HistoryView,
    endpoints: Seq<EndpointView>,
) -> Seq<CycleEventView> {
    seq![
        CycleEventView::Tick,
        CycleEventView::HistoryRead(Ok(old)),
        CycleEventView::Extracted(Ok(fresh)),
        CycleEventView::HistoryWritten(Ok(())),
        CycleEventView::EndpointsRead(endpoints),
    ]
}

/// The last action of a cycle: the delivery of what is new, or rest where
/// no endpoint is registered or nothing is new.
pub open spec fn cycle_end(
    old: HistoryView,
    fresh: HistoryView,
    endpoints: Seq<EndpointView>,
) -> CycleActionView {
    if endpoints.len() == 0 || cycle_batches(old, fresh).len() == 0 {
        CycleActionView::Rest
    } else {
        CycleActionView::Deliver {
            batches: cycle_batches(old, fresh),
            calls: planned_calls(endpoints, cycle_batches(old, fresh).len()),
        }
    }
}

proof fn lemma_run_one_more(
    stage: CycleStageView,
    events: Seq<CycleEventView>,
    event: CycleEventView,
)
    ensures
        run(stage, events.push(event)) == (
            next(run(stage, events).0, event).0,
            run(stage, events).1.push(next(run(stage, events).0, event).1),
        ),
{
    assert(events.push(event).drop_last() =~= events);
}

/// A cycle in which every action succeeds, started from `Idle`, asks in turn
/// for the history, the page, the write of the fresh history, the endpoints
/// and the delivery, and ends in `Idle`.
pub proof fn lemma_smooth_cycle(
    old: HistoryView,
    fresh: HistoryView,
    endpoints: Seq<EndpointView>,
)
    ensures
        run(CycleStageView::Idle, smooth_cycle(old, fresh, endpoints)) == (
            CycleStageView::Idle,
            seq![
                CycleActionView::ReadHistory,
                CycleActionView::FetchPage,
                CycleActionView::WriteHistory(fresh),
                CycleActionView::ReadEndpoints,
                cycle_end(old, fresh, endpoints),
            ],
        ),
{
    let idle = CycleStageView::Idle;
    let e0 = Seq::<CycleEventView>::empty();
    let e1 = e0.push(CycleEventView::Tick);
    let e2 = e1.push(CycleEventView::HistoryRead(Ok(old)));
    let e3 = e2.push(CycleEventView::Extracted(Ok(fresh)));
    let e4 = e3.push(CycleEventView::HistoryWritten(Ok(())));
    let e5 = e4.push(CycleEventView::EndpointsRead(endpoints));
    lemma_run_one_more(idle, e0, CycleEventView::Tick);
    lemma_run_one_more(idle, e1, CycleEventView::HistoryRead(Ok(old)));
    lemma_run_one_more(idle, e2, CycleEventView::Extracted(Ok(fresh)));
    lemma_run_one_more(idle, e3, CycleEventView::HistoryWritten(Ok(())));
    lemma_run_one_more(idle, e4, CycleEventView::EndpointsRead(endpoints));
    assert(e5 =~= smooth_cycle(old, fresh, endpoints));
    assert(run(idle, e5).1 =~= seq![
        CycleActionView::ReadHistory,
        CycleActionView::FetchPage,
        CycleActionView::WriteHistory(fresh),
        CycleActionView::ReadEndpoints,
        cycle_end(old, fresh, endpoints),
    ]);
}

/// Running the pipeline twice on an unchanged page delivers nothing the
/// second time. The first cycle writes what the page yields; when the
/// second cycle reads that history back and the page yields the same, it
/// prepares no batch and ends at rest, whatever endpoints are registered.
pub proof fn lemma_second_run_delivers_nothing(
    old: HistoryView,
    page: HistoryView,
    first_endpoints: Seq<EndpointView>,
    second_endpoints: Seq<EndpointView>,
)
    ensures
        run(CycleStageView::Idle, smooth_cycle(old, page, first_endpoints)).0 is Idle,
        run(CycleStageView::Idle, smooth_cycle(old, page, first_endpoints)).1[2]
            == CycleActionView::WriteHistory(page),
        cycle_batches(page, page) == Seq::<Seq<EmbedView>>::empty(),
        run(CycleStageView::Idle, smooth_cycle(page, page, second_endpoints)) == (
            CycleStageView::Idle,
            seq![
                CycleActionView::ReadHistory,
                CycleActionView::FetchPage,
                CycleActionView::WriteHistory(page),
                CycleActionView::ReadEndpoints,
                CycleActionView::Rest,
            ],
        ),
{
    lemma_smooth_cycle(old, page, first_endpoints);
    lemma_smooth_cycle(page, page, second_endpoints);
    crate::novelty::lemma_unchanged_page_delivers_nothing(page.general, page.important);
    assert(cycle_batches(page, page) =~= Seq::<Seq<EmbedView>>::empty());
}

} // verus!
