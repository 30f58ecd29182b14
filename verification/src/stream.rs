//! The response-stream adapter: wraps the consumer end of a job's response
//! channel as a pull-based sequence of fallible items.
//!
//! The channel operations themselves suspend and live with the caller; the
//! caller reports each observation — an item arrived, the producer closed,
//! the outward consumer disconnected — as a [`StreamEvent`], and the adapter
//! decides what flows downstream and how the stream ends. Items are
//! delivered in production order; an inline error item is forwarded, not
//! turned into an early end; end-of-stream is the producer's explicit close;
//! a disconnected consumer releases the channel so the producer can observe
//! closure and stop instead of blocking forever.

use vstd::prelude::*;

use crate::errors::StreamItemError;

verus! {

/// Lifecycle of one streamed generation call. A job leaves `Streaming` only
/// through the three terminal phases; no other event can force it out.
#[derive(Clone, Copy, Debug, PartialEq, Eq, Structural)]
pub enum JobPhase {
    /// The request arrived; the job was not handed to the pool yet.
    Requested,
    /// The pool accepted the job; no item flowed yet.
    Dispatched,
    /// Items are flowing.
    Streaming,
    /// The producer closed with no error item pending.
    Completed,
    /// The consumer disconnected before the producer closed.
    Cancelled,
    /// The producer emitted a terminal error item and closed.
    Failed,
}

/// One observation made on the job's channels, reported to the adapter.
#[derive(Debug)]
pub enum StreamEvent {
    /// The producer delivered one successful item.
    Delivered { token: String },
    /// The producer delivered an inline failure item.
    DeliveredError { error: StreamItemError },
    /// The producer closed its end: explicit end-of-stream.
    ProducerClosed,
    /// The outward consumer dropped its end of the response stream.
    ConsumerDisconnected,
}

/// What the caller must do after reporting an event.
#[derive(Debug)]
pub enum PullStep {
    /// Hand this item to the outward consumer, success or inline failure.
    Yield { item: Result<String, StreamItemError> },
    /// The stream is over in the given terminal phase; end it downstream.
    Finished { phase: JobPhase },
    /// The consumer is gone: drop the channel's consumer end so the producer
    /// observes closure and stops producing.
    ReleaseChannel,
}

/// Abstract state of an adapter: its phase, whether the item delivered last
/// was an inline error (which turns a following close into `Failed`), and
/// everything yielded downstream so far, in order.
pub struct AdapterModel {
    pub phase: JobPhase,
    pub error_pending: bool,
    pub yielded: Seq<Result<String, StreamItemError>>,
}

/// A phase from which no event moves the job anywhere else.
pub open spec fn terminal(phase: JobPhase) -> bool {
    phase is Completed || phase is Cancelled || phase is Failed
}

/// The adapter as it stands right after the pool accepted the job.
pub open spec fn fresh_adapter() -> AdapterModel {
    AdapterModel { phase: JobPhase::Dispatched, error_pending: false, yielded: Seq::empty() }
}

/// The whole transition table of the adapter: terminal phases absorb every
/// event; otherwise an item moves the job into `Streaming` and is yielded,
/// a close ends it in `Completed` or `Failed`, and a consumer disconnect
/// cancels it.
pub open spec fn adapter_step(m: AdapterModel, ev: StreamEvent) -> AdapterModel {
    if terminal(m.phase) {
        m
    } else {
        match ev {
            StreamEvent::Delivered { token } => AdapterModel {
                phase: JobPhase::Streaming,
                error_pending: false,
                yielded: m.yielded.push(Ok(token)),
            },
            StreamEvent::DeliveredError { error } => AdapterModel {
                phase: JobPhase::Streaming,
                error_pending: true,
                yielded: m.yielded.push(Err(error)),
            },
            StreamEvent::ProducerClosed => AdapterModel {
                phase: if m.error_pending {
                    JobPhase::Failed
                } else {
                    JobPhase::Completed
                },
                error_pending: m.error_pending,
                yielded: m.yielded,
            },
            StreamEvent::ConsumerDisconnected => AdapterModel {
                phase: JobPhase::Cancelled,
                error_pending: m.error_pending,
                yielded: m.yielded,
            },
        }
    }
}

/// The caller-visible outcome that goes with [`adapter_step`].
pub open spec fn adapter_output(m: AdapterModel, ev: StreamEvent) -> PullStep {
    if terminal(m.phase) {
        PullStep::Finished { phase: m.phase }
    } else {
        match ev {
            StreamEvent::Delivered { token } => PullStep::Yield { item: Ok(token) },
            StreamEvent::DeliveredError { error } => PullStep::Yield { item: Err(error) },
            StreamEvent::ProducerClosed => PullStep::Finished {
                phase: if m.error_pending {
                    JobPhase::Failed
                } else {
                    JobPhase::Completed
                },
            },
            StreamEvent::ConsumerDisconnected => PullStep::ReleaseChannel,
        }
    }
}

/// Pull-based wrapper of one job's response channel. Created by the
/// dispatch gateway when the pool accepts the job.
pub struct ResponseStreamAdapter {
    phase: JobPhase,
    error_pending: bool,
    yielded: Ghost<Seq<Result<String, StreamItemError>>>,
}

impl View for ResponseStreamAdapter {
    type V = AdapterModel;

    closed spec fn view(&self) -> AdapterModel {
        AdapterModel {
            phase: self.phase,
            error_pending: self.error_pending,
            yielded: self.yielded@,
        }
    }
}

impl ResponseStreamAdapter {
    /// A fresh adapter for a job the pool just accepted.
    pub fn new() -> (r: ResponseStreamAdapter)
        ensures
            r@ == fresh_adapter(),
    {
        ResponseStreamAdapter {
            phase: JobPhase::Dispatched,
            error_pending: false,
            yielded: Ghost(Seq::empty()),
        }
    }

    /// The job's current phase.
    pub fn phase(&self) -> (r: JobPhase)
        ensures
            r == self@.phase,
    {
        self.phase
    }

    /// Whether the stream is over, one way or another.
    pub fn is_finished(&self) -> (r: bool)
        ensures
            r == terminal(self@.phase),
    {
        match self.phase {
            JobPhase::Completed => true,
            JobPhase::Cancelled => true,
            JobPhase::Failed => true,
            _ => false,
        }
    }

    /// Reports one channel observation and returns what to do with it; the
    /// adapter advances by exactly one step of the transition table.
    pub fn on_event(&mut self, ev: StreamEvent) -> (r: PullStep)
        ensures
            final(self)@ == adapter_step(old(self)@, ev),
            r == adapter_output(old(self)@, ev),
    {
        if self.is_finished() {
            return PullStep::Finished { phase: self.phase };
        }
        match ev {
            StreamEvent::Delivered { token } => {
                self.phase = JobPhase::Streaming;
                self.error_pending = false;
                proof {
                    self.yielded@ = self.yielded@.push(Ok(token));
                }
                PullStep::Yield { item: Ok(token) }
            },
            StreamEvent::DeliveredError { error } => {
                self.phase = JobPhase::Streaming;
                self.error_pending = true;
                proof {
                    self.yielded@ = self.yielded@.push(Err(error));
                }
                PullStep::Yield { item: Err(error) }
            },
            StreamEvent::ProducerClosed => {
                if self.error_pending {
                    self.phase = JobPhase::Failed;
                } else {
                    self.phase = JobPhase::Completed;
                }
                PullStep::Finished { phase: self.phase }
            },
            StreamEvent::ConsumerDisconnected => {
                self.phase = JobPhase::Cancelled;
                PullStep::ReleaseChannel
            },
        }
    }
}

/// The adapter after a whole run of events, first to last.
pub open spec fn adapter_run(m: AdapterModel, evs: Seq<StreamEvent>) -> AdapterModel
    decreases evs.len(),
{
    if evs.len() == 0 {
        m
    } else {
        adapter_step(adapter_run(m, evs.drop_last()), evs.last())
    }
}

/// Every event of the run is a successful delivery.
pub open spec fn all_successful_deliveries(evs: Seq<StreamEvent>) -> bool {
    forall|i: int| 0 <= i < evs.len() ==> evs[i] is Delivered
}

/// The items a run of successful deliveries puts downstream, in order.
pub open spec fn delivered_items(evs: Seq<StreamEvent>) -> Seq<
    Result<String, StreamItemError>,
> {
    Seq::new(evs.len(), |i: int| Ok(evs[i]->token))
}

/// Law: a run of successful deliveries yields exactly the delivered items in
/// delivery order, leaves no error pending, and keeps the job live.
pub proof fn lemma_deliveries_yield_in_order(evs: Seq<StreamEvent>)
    requires
        all_successful_deliveries(evs),
    ensures
        !terminal(adapter_run(fresh_adapter(), evs).phase),
        !adapter_run(fresh_adapter(), evs).error_pending,
        adapter_run(fresh_adapter(), evs).yielded == delivered_items(evs),
    decreases evs.len(),
{
    if evs.len() == 0 {
        assert(adapter_run(fresh_adapter(), evs).yielded =~= delivered_items(evs));
    } else {
        lemma_deliveries_yield_in_order(evs.drop_last());
        assert(adapter_run(fresh_adapter(), evs).yielded =~= delivered_items(evs));
    }
}

/// Law: a channel that delivers only successful items and then closes
/// normally makes the adapter yield exactly those items, in order, and end
/// in `Completed` — after which every further event is absorbed, so the
/// stream terminates rather than lingering.
pub proof fn lemma_clean_close_yields_all(evs: Seq<StreamEvent>)
    requires
        all_successful_deliveries(evs),
    ensures
        adapter_run(fresh_adapter(), evs.push(StreamEvent::ProducerClosed)).phase
            is Completed,
        adapter_run(fresh_adapter(), evs.push(StreamEvent::ProducerClosed)).yielded
            == delivered_items(evs),
{
    lemma_deliveries_yield_in_order(evs);
    assert(evs.push(StreamEvent::ProducerClosed).drop_last() =~= evs);
}

/// Law: a terminal phase is inert — in particular after a cancellation, no
/// later channel event changes the adapter or yields another item.
pub proof fn lemma_terminal_absorbs(m: AdapterModel, evs: Seq<StreamEvent>)
    requires
        terminal(m.phase),
    ensures
        adapter_run(m, evs) == m,
    decreases evs.len(),
{
    if evs.len() > 0 {
        lemma_terminal_absorbs(m, evs.drop_last());
    }
}

/// Law: the moment the consumer disconnects, a live job is cancelled, the
/// caller is told to release the channel (so the producer observes closure
/// and sends nothing further), and nothing more is ever yielded.
pub proof fn lemma_disconnect_cancels(m: AdapterModel, later: Seq<StreamEvent>)
    requires
        !terminal(m.phase),
    ensures
        adapter_output(m, StreamEvent::ConsumerDisconnected) is ReleaseChannel,
        adapter_step(m, StreamEvent::ConsumerDisconnected).phase is Cancelled,
        adapter_run(adapter_step(m, StreamEvent::ConsumerDisconnected), later).yielded
            == m.yielded,
{
    lemma_terminal_absorbs(adapter_step(m, StreamEvent::ConsumerDisconnected), later);
}

} // verus!
