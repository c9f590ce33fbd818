//! The logger façade that applications hold, and the worker it feeds.
use vstd::prelude::*;
use crate::channel::{
    bounded, bounded_records, clone_sender, record_capacity, recv, try_recv, try_send,
    unbounded_records, DiagnosticsSender, EnqueueError, Received,
};
use crate::client::DataDogClient;
use crate::config::DataDogConfig;
use crate::error::DataDogLoggerError;
use crate::level::{level_text, DataDogLogLevel};
use crate::record::{opt_text, DataDogLog, DataDogLogView};
use crate::self_log::{flush_event, reports_flush, SelfLogEvent};
use crate::text::{clone_opt, text_or_empty, text_or_empty_of};
use crate::worker::{
    batch_view, delivered, flushed_seq, initial_state, lemma_delivery_in_order, lemma_terminated_iff_closed,
    records_before_close, run_model, step_model, AccumulatorState, BatchAccumulator, Phase,
    FLUSH_THRESHOLD,
};

verus! {

/// Capacity of the diagnostics channel; events beyond it are dropped.
pub const SELF_LOG_CAPACITY: usize = 100;

/// The record that logging `message` at `level` under `config` produces.
pub open spec fn record_for(config: DataDogConfig, message: Seq<char>, level: DataDogLogLevel) -> DataDogLogView {
    DataDogLogView {
        message,
        ddtags: opt_text(config.tags),
        ddsource: config.source@,
        host: text_or_empty_of(config.hostname),
        service: text_or_empty_of(config.service),
        level: level_text(level),
    }
}

/// Why a record was refused, as reported on the diagnostics channel.
pub open spec fn rejection_text(e: EnqueueError) -> Seq<char> {
    match e {
        EnqueueError::Full => "sending on a full channel"@,
        EnqueueError::Disconnected => "sending on a closed channel"@,
    }
}

/// `event` is the `LoggerError` that reports a refusal for reason `e`.
pub open spec fn is_rejection(e: EnqueueError, event: SelfLogEvent) -> bool {
    event matches SelfLogEvent::LoggerError(m) && m@ == rejection_text(e)
}

/// The diagnostic for a record that the channel refused.
pub fn rejection_event(e: EnqueueError) -> (r: SelfLogEvent)
    ensures
        is_rejection(e, r),
{
    match e {
        EnqueueError::Full => SelfLogEvent::LoggerError(String::from_str("sending on a full channel")),
        EnqueueError::Disconnected => SelfLogEvent::LoggerError(
            String::from_str("sending on a closed channel"),
        ),
    }
}

/// What [`DataDogLogger::log`] did with a record.
#[derive(Debug)]
pub enum LogOutcome {
    /// The channel took the record; no diagnostic was offered.
    Accepted,
    /// The channel refused the record, handed back here, for the given
    /// reason; the record is dropped. The event is the diagnostic offered to
    /// the diagnostics channel, when that is enabled.
    Refused(EnqueueError, DataDogLog, Option<SelfLogEvent>),
    /// The logger was shut down; nothing was offered anywhere.
    NotSent,
}

/// Logger that ships records to DataDog through a background worker.
#[derive(Debug)]
pub struct DataDogLogger {
    config: DataDogConfig,
    logsender: Option<flume::Sender<DataDogLog>>,
    selflogrv: Option<flume::Receiver<SelfLogEvent>>,
    selflogsd: Option<flume::Sender<SelfLogEvent>>,
}

impl DataDogLogger {
    /// Both ends of the diagnostics channel are held, or neither.
    #[verifier::type_invariant]
    spec fn inv(&self) -> bool {
        self.selflogsd is Some <==> self.selflogrv is Some
    }

    /// The configuration the logger was made with.
    pub closed spec fn configuration(&self) -> DataDogConfig {
        self.config
    }

    /// Whether records are still accepted.
    pub closed spec fn is_open(&self) -> bool {
        self.logsender is Some
    }

    /// Whether the logger reports to a diagnostics channel.
    pub closed spec fn reports(&self) -> bool {
        self.selflogsd is Some
    }

    /// The bound of the channel to the worker while it is open: `Some(n)`
    /// when it holds at most `n` records, `None` when it is unbounded.
    pub closed spec fn capacity(&self) -> Option<usize> {
        match self.logsender {
            Some(s) => record_capacity(s),
            None => None,
        }
    }

    /// A logger and the worker that ships its records. The channel to the
    /// worker holds `config.messages_channel_capacity` records, or any number
    /// when that is `None`. With `config.enable_self_log`, a diagnostics
    /// channel is opened and `Start` is reported on it.
    pub fn new(config: DataDogConfig) -> (r: (DataDogLogger, LoggerWorker))
        ensures
            r.0.configuration() == config,
            r.0.is_open(),
            r.0.capacity() == config.messages_channel_capacity,
            r.0.reports() == config.enable_self_log,
            r.1.wf(),
            r.1.inputs() == Seq::<Received<DataDogLog>>::empty(),
            r.1.state() == initial_state(),
            r.1.reports() == config.enable_self_log,
            !r.1.is_stopped(),
            !r.1.is_awaiting_report(),
            config.enable_self_log ==> r.1.offered() == seq![SelfLogEvent::Start],
            r.1.events() == if config.enable_self_log {
                seq![SelfLogEvent::Start]
            } else {
                Seq::<SelfLogEvent>::empty()
            },
    {
        let (selflogsd, selflogrv, worker_selflog) = if config.enable_self_log {
            let (s, r) = bounded::<SelfLogEvent>(SELF_LOG_CAPACITY);
            let mut w = DiagnosticsSender::new(clone_sender(&s));
            w.offer(SelfLogEvent::Start);
            (Some(s), Some(r), Some(w))
        } else {
            (None, None, None)
        };
        let (sender, receiver) = match config.messages_channel_capacity {
            Some(capacity) => bounded_records(capacity),
            None => unbounded_records(),
        };
        let worker = LoggerWorker {
            accumulator: BatchAccumulator::new(),
            receiver,
            selflog: worker_selflog,
            pending: false,
            stopped: false,
            inputs: Ghost(Seq::empty()),
            sent: Ghost(Seq::empty()),
            outcomes: Ghost(Seq::empty()),
            reported: Ghost(Seq::empty()),
        };
        let logger = DataDogLogger { config, logsender: Some(sender), selflogrv, selflogsd };
        (logger, worker)
    }

    /// The receiving end of the diagnostics channel, when enabled.
    pub fn selflog(&self) -> (r: &Option<flume::Receiver<SelfLogEvent>>)
        ensures
            (r is Some) == self.reports(),
    {
        proof {
            use_type_invariant(self);
        }
        &self.selflogrv
    }

    /// The record that [`log`](Self::log) hands to the worker.
    pub fn make_log(&self, message: &str, level: DataDogLogLevel) -> (r: DataDogLog)
        ensures
            r@ == record_for(self.configuration(), message@, level),
    {
        DataDogLog {
            message: String::from_str(message),
            ddtags: clone_opt(&self.config.tags),
            ddsource: self.config.source.clone(),
            host: text_or_empty(&self.config.hostname),
            service: text_or_empty(&self.config.service),
            level: level.to_string(),
        }
    }

    /// Hands a record to the worker without waiting. When the channel refuses
    /// it (full, or the worker is gone), the record is dropped and a
    /// `LoggerError` is offered to the diagnostics channel, if enabled.
    /// After [`shutdown`](Self::shutdown) nothing is sent.
    pub fn log(&self, message: &str, level: DataDogLogLevel) -> (r: LogOutcome)
        ensures
            r is NotSent <==> !self.is_open(),
            r matches LogOutcome::Refused(_, record, _) ==> record@ == record_for(
                self.configuration(),
                message@,
                level,
            ),
            r matches LogOutcome::Refused(_, _, event) ==> (event is Some <==> self.reports()),
            r matches LogOutcome::Refused(e, _, Some(event)) ==> is_rejection(e, event),
    {
        let record = self.make_log(message, level);
        match &self.logsender {
            Some(sender) => match try_send(sender, record) {
                Ok(()) => LogOutcome::Accepted,
                Err((e, back)) => match &self.selflogsd {
                    Some(selflog) => {
                        let event = rejection_event(e);
                        let _ = try_send(selflog, event.duplicate());
                        LogOutcome::Refused(e, back, Some(event))
                    },
                    None => LogOutcome::Refused(e, back, None),
                },
            },
            None => LogOutcome::NotSent,
        }
    }

    /// Closes the channel to the worker: no further record is accepted, and
    /// the worker flushes what it holds and terminates once it has taken the
    /// records already sent.
    pub fn shutdown(&mut self)
        ensures
            !final(self).is_open(),
            final(self).configuration() == old(self).configuration(),
            final(self).reports() == old(self).reports(),
    {
        proof {
            use_type_invariant(&*self);
        }
        self.logsender = None;
    }
}

/// The diagnostics a worker has reported: `Start` first and `Stop` last when
/// the diagnostics channel is enabled, nothing otherwise.
pub open spec fn session_events(enabled: bool, flushes: Seq<SelfLogEvent>, stopped: bool) -> Seq<SelfLogEvent> {
    if enabled {
        seq![SelfLogEvent::Start] + flushes + if stopped {
            seq![SelfLogEvent::Stop]
        } else {
            Seq::<SelfLogEvent>::empty()
        }
    } else {
        Seq::empty()
    }
}

/// Each event reports the flush outcome at the same position.
pub open spec fn reports_each(outcomes: Seq<Result<(), DataDogLoggerError>>, events: Seq<SelfLogEvent>) -> bool {
    &&& outcomes.len() == events.len()
    &&& forall|i: int| 0 <= i < outcomes.len() ==> #[trigger] reports_flush(outcomes[i], events[i])
}

/// The background worker of a [`DataDogLogger`]: takes records off the
/// channel, flushes them in batches through a transport, and reports each
/// flush on the diagnostics channel.
pub struct LoggerWorker {
    accumulator: BatchAccumulator,
    receiver: flume::Receiver<DataDogLog>,
    selflog: Option<DiagnosticsSender>,
    pending: bool,
    stopped: bool,
    inputs: Ghost<Seq<Received<DataDogLog>>>,
    sent: Ghost<Seq<Seq<DataDogLog>>>,
    outcomes: Ghost<Seq<Result<(), DataDogLoggerError>>>,
    reported: Ghost<Seq<SelfLogEvent>>,
}

impl LoggerWorker {
    /// The accumulator's model.
    pub closed spec fn state(&self) -> AccumulatorState {
        self.accumulator.state()
    }

    /// Every receive result the worker has taken, in order.
    pub closed spec fn inputs(&self) -> Seq<Received<DataDogLog>> {
        self.inputs@
    }

    /// Every batch released for sending, in order.
    pub closed spec fn sent(&self) -> Seq<Seq<DataDogLog>> {
        self.sent@
    }

    /// The transport's answer to each batch sent.
    pub closed spec fn outcomes(&self) -> Seq<Result<(), DataDogLoggerError>> {
        self.outcomes@
    }

    /// Every event offered to the diagnostics channel, in order; nothing
    /// when it is disabled.
    pub closed spec fn offered(&self) -> Seq<SelfLogEvent> {
        match self.selflog {
            Some(s) => s.offered(),
            None => Seq::empty(),
        }
    }

    /// The diagnostic reported for each batch sent.
    pub closed spec fn flush_events(&self) -> Seq<SelfLogEvent> {
        self.reported@
    }

    /// Whether the worker reports to a diagnostics channel.
    pub closed spec fn reports(&self) -> bool {
        self.selflog is Some
    }

    /// Whether a batch was handed out and its outcome not yet reported.
    pub closed spec fn is_awaiting_report(&self) -> bool {
        self.pending
    }

    /// Whether `Stop` was reported.
    pub closed spec fn is_stopped(&self) -> bool {
        self.stopped
    }

    /// Every diagnostic of this logger's session so far, in order.
    pub open spec fn events(&self) -> Seq<SelfLogEvent> {
        self.offered()
    }

    /// The worker's invariant: its state and the batches it released are
    /// what the model gives for the inputs taken; each batch got one outcome,
    /// and one diagnostic that reports it, but the one awaiting its report;
    /// the events offered to the diagnostics channel are `Start`, those
    /// diagnostics and, once stopped, `Stop`; `Stop` comes only after
    /// termination, with no report outstanding.
    pub open spec fn wf(&self) -> bool {
        &&& (self.state(), self.sent()) == run_model(initial_state(), self.inputs())
        &&& self.outcomes().len() + (if self.is_awaiting_report() {
            1int
        } else {
            0int
        }) == self.sent().len()
        &&& reports_each(self.outcomes(), self.flush_events())
        &&& self.offered() == session_events(self.reports(), self.flush_events(), self.is_stopped())
        &&& self.is_stopped() ==> self.state().phase == Phase::Terminated
        &&& self.is_stopped() ==> !self.is_awaiting_report()
    }

    /// The current phase.
    pub fn phase(&self) -> (r: Phase)
        ensures
            r == self.state().phase,
    {
        self.accumulator.phase()
    }

    /// Whether a batch awaits the report of its outcome.
    pub fn awaiting_report(&self) -> (r: bool)
        ensures
            r == self.is_awaiting_report(),
    {
        self.pending
    }

    /// The receiving end of the record channel, for a driver that waits on
    /// it asynchronously while idle.
    pub fn receiver(&self) -> &flume::Receiver<DataDogLog> {
        &self.receiver
    }

    /// Whether the channel closed and everything was flushed.
    pub fn is_terminated(&self) -> (r: bool)
        ensures
            r == (self.state().phase == Phase::Terminated),
    {
        self.accumulator.phase() == Phase::Terminated
    }

    /// Receives as the phase asks: without waiting while draining, waiting
    /// for a record or for closure when idle. A terminated worker receives
    /// nothing and sees the channel closed.
    pub fn next_input(&self) -> (r: Received<DataDogLog>)
        ensures
            self.state().phase == Phase::IdleWait ==> !(r is Empty),
            self.state().phase == Phase::Terminated ==> r is Closed,
    {
        match self.accumulator.phase() {
            Phase::Draining => try_recv(&self.receiver),
            Phase::IdleWait => recv(&self.receiver),
            Phase::Terminated => Received::Closed,
        }
    }

    /// Takes one receive result; returns the batch due for the transport,
    /// if any, which must then be sent once and its outcome given to
    /// [`report`](Self::report).
    pub fn accept(&mut self, input: Received<DataDogLog>) -> (r: Option<Vec<DataDogLog>>)
        requires
            old(self).wf(),
            !old(self).is_awaiting_report(),
        ensures
            final(self).wf(),
            final(self).inputs() == old(self).inputs().push(input),
            final(self).is_awaiting_report() == r is Some,
            final(self).sent() == old(self).sent() + flushed_seq(batch_view(r)),
            final(self).outcomes() == old(self).outcomes(),
            final(self).flush_events() == old(self).flush_events(),
            final(self).reports() == old(self).reports(),
            final(self).is_stopped() == old(self).is_stopped(),
    {
        let ghost taken = input;
        let flushed = self.accumulator.step(input);
        proof {
            assert(self.inputs@.push(taken).drop_last() =~= self.inputs@);
            self.inputs@ = self.inputs@.push(taken);
            self.sent@ = self.sent@ + flushed_seq(batch_view(flushed));
        }
        self.pending = flushed.is_some();
        flushed
    }

    /// Records the transport's answer to the batch handed out last and
    /// reports it on the diagnostics channel.
    pub fn report(&mut self, outcome: Result<(), DataDogLoggerError>)
        requires
            old(self).wf(),
            old(self).is_awaiting_report(),
        ensures
            final(self).wf(),
            !final(self).is_awaiting_report(),
            final(self).inputs() == old(self).inputs(),
            final(self).sent() == old(self).sent(),
            final(self).outcomes() == old(self).outcomes().push(outcome),
            final(self).flush_events().len() == old(self).flush_events().len() + 1,
            reports_flush(outcome, final(self).flush_events().last()),
            old(self).reports() ==> final(self).offered() == old(self).offered().push(
                final(self).flush_events().last(),
            ),
            !old(self).reports() ==> final(self).offered() == old(self).offered(),
            final(self).reports() == old(self).reports(),
            final(self).is_stopped() == old(self).is_stopped(),
    {
        let event = flush_event(&outcome);
        proof {
            self.outcomes@ = self.outcomes@.push(outcome);
            self.reported@ = self.reported@.push(event);
            assert forall|i: int| 0 <= i < self.outcomes@.len() implies #[trigger] reports_flush(
                self.outcomes@[i],
                self.reported@[i],
            ) by {}
        }
        self.pending = false;
        if let Some(selflog) = &mut self.selflog {
            selflog.offer(event);
        }
        proof {
            if self.reports() {
                assert(self.offered() =~= session_events(
                    self.reports(),
                    self.flush_events(),
                    self.is_stopped(),
                ));
            }
        }
    }

    /// Takes one receive result; when a batch is due, releases it for
    /// sending, hands it to `client` once and reports the outcome. The
    /// transport is the caller's: what it does with the batch is not stated.
    pub fn deliver<T: DataDogClient>(&mut self, client: &mut T, input: Received<DataDogLog>)
        requires
            old(self).wf(),
            !old(self).is_awaiting_report(),
        ensures
            final(self).wf(),
            !final(self).is_awaiting_report(),
            final(self).inputs() == old(self).inputs().push(input),
            final(self).reports() == old(self).reports(),
            final(self).is_stopped() == old(self).is_stopped(),
            final(self).state() == step_model(old(self).state(), input).0,
            final(self).sent() == old(self).sent() + flushed_seq(step_model(old(self).state(), input).1),
            final(self).outcomes().len() == final(self).sent().len(),
    {
        let ghost old_inputs = self.inputs@;
        let flushed = self.accept(input);
        assert(self.inputs@.drop_last() =~= old_inputs);
        match flushed {
            Some(batch) => {
                let outcome = client.send(batch.as_slice());
                self.report(outcome);
            },
            None => {},
        }
    }

    /// Reports `Stop` once the worker has terminated; before that, does
    /// nothing.
    pub fn finish(&mut self)
        requires
            old(self).wf(),
        ensures
            final(self).wf(),
            final(self).inputs() == old(self).inputs(),
            final(self).reports() == old(self).reports(),
            final(self).is_awaiting_report() == old(self).is_awaiting_report(),
            final(self).is_stopped() == (old(self).is_stopped() || (old(self).state().phase
                == Phase::Terminated && !old(self).is_awaiting_report())),
            old(self).reports() && final(self).is_stopped() && !old(self).is_stopped()
                ==> final(self).offered() == old(self).offered().push(SelfLogEvent::Stop),
            !(old(self).reports() && final(self).is_stopped() && !old(self).is_stopped())
                ==> final(self).offered() == old(self).offered(),
    {
        if self.accumulator.phase() == Phase::Terminated && !self.stopped && !self.pending {
            self.stopped = true;
            if let Some(selflog) = &mut self.selflog {
                selflog.offer(SelfLogEvent::Stop);
            }
            proof {
                if self.reports() {
                    assert(self.offered() =~= session_events(
                        self.reports(),
                        self.flush_events(),
                        self.is_stopped(),
                    ));
                }
            }
        }
    }
}

/// A terminated worker has released for sending every record it took before
/// the channel closed, each once and in order, in batches of one to
/// [`FLUSH_THRESHOLD`] records, and has an outcome for each batch.
pub proof fn lemma_worker_delivers_everything(w: LoggerWorker)
    requires
        w.wf(),
        w.state().phase == Phase::Terminated,
        !w.is_awaiting_report(),
    ensures
        delivered(w.sent()) == records_before_close(w.inputs()),
        forall|i: int| 0 <= i < w.sent().len() ==> 0 < #[trigger] w.sent()[i].len() <= FLUSH_THRESHOLD,
        w.outcomes().len() == w.sent().len(),
{
    lemma_terminated_iff_closed(w.inputs());
    lemma_delivery_in_order(w.inputs());
}

/// With diagnostics enabled and a transport that never fails, a finished
/// session reports exactly `Start`, one `Success` per batch, then `Stop`.
pub proof fn lemma_clean_run_diagnostics(w: LoggerWorker)
    requires
        w.wf(),
        w.reports(),
        w.is_stopped(),
        forall|i: int| 0 <= i < w.outcomes().len() ==> #[trigger] w.outcomes()[i] is Ok,
    ensures
        w.events() == seq![SelfLogEvent::Start] + Seq::new(
            w.sent().len(),
            |i: int| SelfLogEvent::Success,
        ) + seq![SelfLogEvent::Stop],
{
    let successes = Seq::new(w.sent().len(), |i: int| SelfLogEvent::Success);
    assert forall|i: int| 0 <= i < w.flush_events().len() implies w.flush_events()[i]
        == successes[i] by {
        assert(reports_flush(w.outcomes()[i], w.flush_events()[i]));
    }
    assert(w.flush_events() =~= successes);
}

/// With diagnostics enabled and a transport that always fails, a finished
/// session reports `Start`, one `ClientError` per batch, then `Stop`; each
/// batch was released once, none again.
pub proof fn lemma_failing_run_diagnostics(w: LoggerWorker)
    requires
        w.wf(),
        w.reports(),
        w.is_stopped(),
        forall|i: int| 0 <= i < w.outcomes().len() ==> #[trigger] w.outcomes()[i] is Err,
    ensures
        w.events().len() == w.sent().len() + 2,
        w.events()[0] == SelfLogEvent::Start,
        w.events().last() == SelfLogEvent::Stop,
        forall|i: int| 1 <= i <= w.sent().len() ==> #[trigger] w.events()[i] is ClientError,
        w.outcomes().len() == w.sent().len(),
{
    assert forall|i: int| 1 <= i <= w.sent().len() implies #[trigger] w.events()[i] is ClientError by {
        assert(w.events()[i] == w.flush_events()[i - 1]);
        assert(reports_flush(w.outcomes()[i - 1], w.flush_events()[i - 1]));
    }
}

proof fn lemma_delivered_covers_batches(batches: Seq<Seq<DataDogLog>>)
    requires
        forall|i: int| 0 <= i < batches.len() ==> 0 < #[trigger] batches[i].len(),
    ensures
        delivered(batches).len() >= batches.len(),
    decreases batches.len(),
{
    if batches.len() > 0 {
        let rest = batches.drop_last();
        assert forall|i: int| 0 <= i < rest.len() implies 0 < #[trigger] rest[i].len() by {
            assert(rest[i] == batches[i]);
        }
        lemma_delivered_covers_batches(rest);
    }
}

/// A session in which no record was taken before the channel closed
/// releases no batch, and, with diagnostics enabled, offers only `Start` and
/// `Stop`.
pub proof fn lemma_silent_session(w: LoggerWorker)
    requires
        w.wf(),
        w.is_stopped(),
        records_before_close(w.inputs()).len() == 0,
    ensures
        w.sent().len() == 0,
        w.reports() ==> w.events() == seq![SelfLogEvent::Start, SelfLogEvent::Stop],
{
    lemma_worker_delivers_everything(w);
    lemma_delivered_covers_batches(w.sent());
    if w.reports() {
        assert(w.flush_events().len() == 0);
        assert(w.events() =~= seq![SelfLogEvent::Start, SelfLogEvent::Stop]);
    }
}

} // verus!
