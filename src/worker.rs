//! The background worker: it takes records off the channel, collects them
//! into batches and flushes each batch once through a transport.
//!
//! The decisions are a state machine. [`step_model`] is its model,
//! [`run_model`] the model of a whole sequence of receives, and
//! [`BatchAccumulator::step`] the executable machine, proved to follow it.
use vstd::prelude::*;
use crate::channel::Received;
use crate::record::DataDogLog;

verus! {

/// A batch is flushed as soon as it holds this many records.
pub const FLUSH_THRESHOLD: usize = 50;

/// Phases of the worker.
#[derive(Clone, Copy, Debug, PartialEq, Eq, Structural)]
pub enum Phase {
    /// Takes whatever the channel holds, without waiting.
    Draining,
    /// The channel was found empty: waits for the next record or for closure.
    IdleWait,
    /// The channel closed; nothing more happens.
    Terminated,
}

/// Model of the accumulator: the records buffered and the phase.
pub struct AccumulatorState {
    pub batch: Seq<DataDogLog>,
    pub phase: Phase,
}

/// The state a worker starts in.
pub open spec fn initial_state() -> AccumulatorState {
    AccumulatorState { batch: Seq::empty(), phase: Phase::Draining }
}

/// The buffered records as a batch to flush, unless there are none.
pub open spec fn nonempty(b: Seq<DataDogLog>) -> Option<Seq<DataDogLog>> {
    if b.len() > 0 {
        Some(b)
    } else {
        None
    }
}

/// One transition: the state after a receive produced `input`, and the batch
/// to flush at that point, if any.
pub open spec fn step_model(s: AccumulatorState, input: Received<DataDogLog>) -> (
    AccumulatorState,
    Option<Seq<DataDogLog>>,
) {
    if s.phase == Phase::Terminated {
        (s, None)
    } else {
        match input {
            Received::Item(r) => {
                let b = s.batch.push(r);
                if b.len() >= FLUSH_THRESHOLD {
                    (AccumulatorState { batch: Seq::empty(), phase: Phase::Draining }, Some(b))
                } else {
                    (AccumulatorState { batch: b, phase: Phase::Draining }, None)
                }
            },
            Received::Empty => (
                AccumulatorState { batch: Seq::empty(), phase: Phase::IdleWait },
                nonempty(s.batch),
            ),
            Received::Closed => (
                AccumulatorState { batch: Seq::empty(), phase: Phase::Terminated },
                nonempty(s.batch),
            ),
        }
    }
}

/// The batches flushed by one transition, as a sequence of none or one.
pub open spec fn flushed_seq(f: Option<Seq<DataDogLog>>) -> Seq<Seq<DataDogLog>> {
    match f {
        Some(b) => seq![b],
        None => Seq::empty(),
    }
}

/// The state after feeding `inputs` in order, from `s`, and every batch
/// flushed on the way, in order.
pub open spec fn run_model(s: AccumulatorState, inputs: Seq<Received<DataDogLog>>) -> (
    AccumulatorState,
    Seq<Seq<DataDogLog>>,
)
    decreases inputs.len(),
{
    if inputs.len() == 0 {
        (s, Seq::empty())
    } else {
        let (before, flushed) = run_model(s, inputs.drop_last());
        let (after, f) = step_model(before, inputs.last());
        (after, flushed + flushed_seq(f))
    }
}

/// All records of a sequence of batches, in order.
pub open spec fn delivered(batches: Seq<Seq<DataDogLog>>) -> Seq<DataDogLog>
    decreases batches.len(),
{
    if batches.len() == 0 {
        Seq::empty()
    } else {
        delivered(batches.drop_last()) + batches.last()
    }
}

/// Whether the channel was seen closed among `inputs`.
pub open spec fn closed_in(inputs: Seq<Received<DataDogLog>>) -> bool
    decreases inputs.len(),
{
    if inputs.len() == 0 {
        false
    } else {
        closed_in(inputs.drop_last()) || inputs.last() is Closed
    }
}

/// The records received before the channel was seen closed, in order.
pub open spec fn records_before_close(inputs: Seq<Received<DataDogLog>>) -> Seq<DataDogLog>
    decreases inputs.len(),
{
    if inputs.len() == 0 {
        Seq::empty()
    } else {
        let earlier = records_before_close(inputs.drop_last());
        if closed_in(inputs.drop_last()) {
            earlier
        } else {
            match inputs.last() {
                Received::Item(r) => earlier.push(r),
                _ => earlier,
            }
        }
    }
}

/// The batch flushed by a transition, as the model sees it.
pub open spec fn batch_view(f: Option<Vec<DataDogLog>>) -> Option<Seq<DataDogLog>> {
    match f {
        Some(v) => Some(v@),
        None => None,
    }
}

/// The executable state machine of the worker.
pub struct BatchAccumulator {
    batch: Vec<DataDogLog>,
    phase: Phase,
}

impl BatchAccumulator {
    /// The model of this accumulator.
    pub closed spec fn state(&self) -> AccumulatorState {
        AccumulatorState { batch: self.batch@, phase: self.phase }
    }

    /// An empty accumulator, draining.
    pub fn new() -> (r: Self)
        ensures
            r.state() == initial_state(),
    {
        BatchAccumulator { batch: Vec::new(), phase: Phase::Draining }
    }

    /// The current phase.
    pub fn phase(&self) -> (r: Phase)
        ensures
            r == self.state().phase,
    {
        self.phase
    }

    /// The number of records buffered.
    pub fn buffered(&self) -> (r: usize)
        ensures
            r == self.state().batch.len(),
    {
        self.batch.len()
    }

    /// Takes the result of a receive; returns the batch to hand to the
    /// transport now, if any.
    pub fn step(&mut self, input: Received<DataDogLog>) -> (flushed: Option<Vec<DataDogLog>>)
        ensures
            (final(self).state(), batch_view(flushed)) == step_model(old(self).state(), input),
    {
        if self.phase == Phase::Terminated {
            return None;
        }
        match input {
            Received::Item(r) => {
                self.batch.push(r);
                self.phase = Phase::Draining;
                if self.batch.len() >= FLUSH_THRESHOLD {
                    Some(self.take_batch())
                } else {
                    None
                }
            },
            Received::Empty => {
                self.phase = Phase::IdleWait;
                self.take_nonempty()
            },
            Received::Closed => {
                self.phase = Phase::Terminated;
                self.take_nonempty()
            },
        }
    }

    fn take_batch(&mut self) -> (r: Vec<DataDogLog>)
        ensures
            r@ == old(self).batch@,
            final(self).batch@ == Seq::<DataDogLog>::empty(),
            final(self).phase == old(self).phase,
    {
        let mut b = Vec::new();
        std::mem::swap(&mut b, &mut self.batch);
        b
    }

    fn take_nonempty(&mut self) -> (r: Option<Vec<DataDogLog>>)
        ensures
            batch_view(r) == nonempty(old(self).batch@),
            final(self).batch@ == Seq::<DataDogLog>::empty(),
            final(self).phase == old(self).phase,
    {
        if self.batch.len() > 0 {
            Some(self.take_batch())
        } else {
            None
        }
    }
}

/// What a run from the initial state accounts for after `inputs`: before the
/// channel closed, the records flushed followed by those buffered are the
/// records received; after it closed, the records flushed are all of them and
/// nothing is left buffered. Every flushed batch is non-empty and holds at
/// most [`FLUSH_THRESHOLD`] records.
proof fn lemma_run_accounts(inputs: Seq<Received<DataDogLog>>)
    ensures
        ({
            let (s, fs) = run_model(initial_state(), inputs);
            &&& closed_in(inputs) ==> {
                &&& s.phase == Phase::Terminated
                &&& s.batch.len() == 0
                &&& delivered(fs) == records_before_close(inputs)
            }
            &&& !closed_in(inputs) ==> {
                &&& s.phase != Phase::Terminated
                &&& s.batch.len() < FLUSH_THRESHOLD
                &&& delivered(fs) + s.batch == records_before_close(inputs)
            }
            &&& forall|i: int| 0 <= i < fs.len() ==> 0 < #[trigger] fs[i].len() <= FLUSH_THRESHOLD
        }),
    decreases inputs.len(),
{
    if inputs.len() == 0 {
        assert(delivered(Seq::<Seq<DataDogLog>>::empty()) + Seq::<DataDogLog>::empty() =~= Seq::<
            DataDogLog,
        >::empty());
    } else {
        let prev = inputs.drop_last();
        let x = inputs.last();
        lemma_run_accounts(prev);
        let (b, f0) = run_model(initial_state(), prev);
        let (a, f) = step_model(b, x);
        let fs = f0 + flushed_seq(f);
        assert(run_model(initial_state(), inputs) == (a, fs));
        match f {
            Some(batch) => {
                assert(fs.drop_last() =~= f0);
                assert(fs.last() == batch);
                assert(delivered(fs) == delivered(f0) + batch);
            },
            None => {
                assert(fs =~= f0);
            },
        }
        assert forall|i: int| 0 <= i < fs.len() implies 0 < #[trigger] fs[i].len() <= FLUSH_THRESHOLD by {
            if i < f0.len() {
                assert(fs[i] == f0[i]);
            }
        }
        if !closed_in(prev) {
            let earlier = records_before_close(prev);
            match x {
                Received::Item(r) => {
                    assert(records_before_close(inputs) == earlier.push(r));
                    let nb = b.batch.push(r);
                    assert(delivered(f0) + nb =~= (delivered(f0) + b.batch).push(r));
                    if nb.len() >= FLUSH_THRESHOLD {
                        assert(delivered(fs) + a.batch =~= delivered(fs));
                    }
                },
                Received::Empty => {
                    assert(records_before_close(inputs) == earlier);
                    if b.batch.len() == 0 {
                        assert(delivered(f0) + b.batch =~= delivered(f0));
                    }
                    assert(delivered(fs) + a.batch =~= delivered(fs));
                },
                Received::Closed => {
                    assert(records_before_close(inputs) == earlier);
                    if b.batch.len() == 0 {
                        assert(delivered(f0) + b.batch =~= delivered(f0));
                    }
                },
            }
        }
    }
}

/// Delivery is complete and in order: for every sequence of receives in which
/// the channel is seen closed, the batches released for sending hold, in
/// order, exactly the records received before the closure, each once. No
/// batch is empty or larger than [`FLUSH_THRESHOLD`], and the worker ends
/// terminated with nothing buffered.
pub proof fn lemma_delivery_in_order(inputs: Seq<Received<DataDogLog>>)
    requires
        closed_in(inputs),
    ensures
        delivered(run_model(initial_state(), inputs).1) == records_before_close(inputs),
        run_model(initial_state(), inputs).0.phase == Phase::Terminated,
        run_model(initial_state(), inputs).0.batch.len() == 0,
        forall|i: int|
            0 <= i < run_model(initial_state(), inputs).1.len() ==> 0 < #[trigger] run_model(
                initial_state(),
                inputs,
            ).1[i].len() <= FLUSH_THRESHOLD,
{
    lemma_run_accounts(inputs);
}

/// Shutdown terminates: from any state, observing the closed channel ends the
/// worker in that very transition, with a final flush of everything that was
/// buffered; once terminated, no receive changes anything or flushes again.
pub proof fn lemma_shutdown_terminates(s: AccumulatorState, later: Seq<Received<DataDogLog>>)
    requires
        s.phase != Phase::Terminated,
    ensures
        step_model(s, Received::Closed).0.phase == Phase::Terminated,
        step_model(s, Received::Closed).0.batch.len() == 0,
        step_model(s, Received::Closed).1 == nonempty(s.batch),
        run_model(step_model(s, Received::Closed).0, later) == (
            step_model(s, Received::Closed).0,
            Seq::<Seq<DataDogLog>>::empty(),
        ),
    decreases later.len(),
{
    if later.len() > 0 {
        lemma_shutdown_terminates(s, later.drop_last());
        let t = step_model(s, Received::Closed).0;
        assert(run_model(t, later).1 =~= Seq::<Seq<DataDogLog>>::empty() + flushed_seq(None));
    }
}

/// A run has terminated exactly when the channel was seen closed.
pub proof fn lemma_terminated_iff_closed(inputs: Seq<Received<DataDogLog>>)
    ensures
        run_model(initial_state(), inputs).0.phase == Phase::Terminated <==> closed_in(inputs),
{
    lemma_run_accounts(inputs);
}

} // verus!
