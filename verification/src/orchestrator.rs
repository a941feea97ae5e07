//! The orchestration state machine that drives one load-generation run.
//!
//! The orchestrator owns the nonce counter and the running tally and decides
//! every move: it hands the caller an [`Action`] to perform against the
//! remote node, and the caller hands back an [`Event`] with the outcome.
//! One full iteration per batch: build, submit, aggregate behind a full
//! barrier, advance the block, pace. The ghost [`RunModel`] and the
//! transition function [`run_step`] state the whole behaviour; `step`'s
//! contract ties the executable machine to it exactly.

use crate::config::{Config, Transaction, TransactionView};
use crate::nonce::NonceAllocator;
use crate::outcome::{
    classify, count_failed, count_succeeded, lemma_all_outcomes_classified, SubmissionOutcome,
    Tally,
};
use vstd::prelude::*;

verus! {

/// One intent bound to the specific nonce it will be submitted under;
/// constructed fresh per submission, never mutated after dispatch.
pub struct SubmissionRequest {
    pub tx: Transaction,
    pub nonce: u64,
}

/// Where the orchestrator stands between two events. Building and
/// submitting a batch never wait on the outside, so they happen inside one
/// step: the step that hands out a batch moves directly to `Aggregating`.
#[derive(Debug, PartialEq, Eq, Structural, Clone, Copy)]
pub enum Phase {
    /// created, nothing sent yet
    Init,
    /// the starting nonce is being reported to the remote node
    ResettingNonce,
    /// a batch is in flight; the barrier waits for every outcome
    Aggregating,
    /// block production was requested
    Advancing,
    /// the pacing pause is running
    Pacing,
    /// the run is complete and the tally was reported
    Done,
    /// the run stopped on a fatal error
    Aborted,
}

/// What the outside just finished, handed to `step`.
pub enum Event {
    /// begin the run
    Start,
    /// the starting nonce was reported to the node; false means the call
    /// failed, which is fatal
    NonceSet(bool),
    /// every submission of the in-flight batch resolved, one outcome per
    /// request, in any order
    BatchResolved(Vec<SubmissionOutcome>),
    /// block production was requested; false means the call failed, which
    /// is recoverable
    BlockProduced(bool),
    /// the pacing pause elapsed
    Paced,
}

/// What the outside must do next, returned by `step`.
pub enum Action {
    /// report this starting nonce to the remote node
    SetNonce(u64),
    /// dispatch every request concurrently, then wait for all of their
    /// outcomes; no request may be dropped unresolved
    Submit(Vec<SubmissionRequest>),
    /// request block production from the remote node
    ProduceBlock,
    /// pause for this many milliseconds
    Pace(u64),
    /// the run's only output: the final tally
    Report(Tally),
    /// stop the run with no tally: without the starting nonce every later
    /// nonce is untrustworthy
    Abort,
}

/// The mathematical state of one run.
#[verifier::ext_equal]
pub ghost struct RunModel {
    /// the template set, in cycling order
    pub templates: Seq<TransactionView>,
    /// how many transactions the run submits in total
    pub total: int,
    /// the per-block limit on a batch
    pub limit: int,
    /// the pacing pause in milliseconds
    pub pause: int,
    /// the first nonce of the run
    pub baseline: int,
    pub phase: Phase,
    /// how many requests were handed out to batches so far
    pub submitted: int,
    pub succeeded: int,
    pub failed: int,
    /// the size of the batch in flight, zero outside `Aggregating`
    pub in_flight: int,
    /// the size of every batch handed out so far, in order
    pub batch_sizes: Seq<int>,
    /// how many pacing pauses have completed
    pub paces: int,
}

/// The model of an event: a resolved batch is abstracted to its success and
/// failure counts.
pub ghost enum RunEvent {
    Start,
    NonceSet { ok: bool },
    BatchResolved { succeeded: int, failed: int },
    BlockProduced { ok: bool },
    Paced,
}

/// The model of an action: a handed-out batch is abstracted to its first
/// nonce and its size.
pub ghost enum RunAction {
    SetNonce { nonce: int },
    Submit { start: int, size: int },
    ProduceBlock,
    Pace { millis: int },
    Report { succeeded: int, failed: int },
    Abort,
}

/// The size of batch number `k`, counted from zero: the per-block limit,
/// or what remains of the total when less.
pub open spec fn batch_size_at(total: int, limit: int, k: int) -> int {
    vstd::math::min(limit, total - k * limit)
}

/// The number of batches a run of `total` transactions needs at `limit`
/// per block: `total / limit`, rounded up.
pub open spec fn spec_ceil_div(total: int, limit: int) -> int {
    (total + limit - 1) / limit
}

/// State invariant that holds in every phase: the batches handed out so
/// far have exactly the prescribed sizes and account for every submitted
/// request.
pub open spec fn run_inv_base(m: RunModel) -> bool {
    &&& m.templates.len() >= 1
    &&& m.limit >= 1
    &&& 0 <= m.total <= u64::MAX
    &&& 0 <= m.baseline && m.baseline + m.total <= u64::MAX
    &&& 0 <= m.pause <= u64::MAX
    &&& 0 <= m.submitted <= m.total
    &&& 0 <= m.succeeded
    &&& 0 <= m.failed
    &&& 0 <= m.paces
    &&& m.batch_sizes.len() <= m.submitted
    &&& m.submitted == vstd::math::min(m.total, m.batch_sizes.len() * m.limit)
    &&& forall|k: int|
        0 <= k < m.batch_sizes.len() ==> (#[trigger] m.batch_sizes[k]) == batch_size_at(
            m.total,
            m.limit,
            k,
        ) && k * m.limit < m.total
}

/// What each phase guarantees of the counters: the tally always accounts
/// exactly for the resolved requests, and pacing has run once per
/// completed batch.
pub open spec fn phase_inv(m: RunModel) -> bool {
    match m.phase {
        Phase::Init | Phase::ResettingNonce => {
            &&& m.submitted == 0
            &&& m.succeeded == 0
            &&& m.failed == 0
            &&& m.batch_sizes.len() == 0
            &&& m.paces == 0
            &&& m.in_flight == 0
        },
        Phase::Aggregating => {
            &&& m.batch_sizes.len() >= 1
            &&& m.in_flight == m.batch_sizes.last()
            &&& m.in_flight >= 1
            &&& m.succeeded + m.failed + m.in_flight == m.submitted
            &&& m.paces == m.batch_sizes.len() - 1
        },
        Phase::Advancing | Phase::Pacing => {
            &&& m.batch_sizes.len() >= 1
            &&& m.in_flight == 0
            &&& m.succeeded + m.failed == m.submitted
            &&& m.paces == m.batch_sizes.len() - 1
        },
        Phase::Done => {
            &&& m.submitted == m.total
            &&& m.in_flight == 0
            &&& m.succeeded + m.failed == m.total
            &&& m.paces == m.batch_sizes.len()
        },
        Phase::Aborted => true,
    }
}

/// The run invariant: established at creation, preserved by every step.
pub open spec fn run_inv(m: RunModel) -> bool {
    run_inv_base(m) && phase_inv(m)
}

/// Which event a state accepts: exactly the one its phase is waiting for,
/// and a resolved batch must carry one outcome per in-flight request (the
/// barrier waits for all of them).
pub open spec fn event_enabled(m: RunModel, e: Event) -> bool {
    match e {
        Event::Start => m.phase is Init,
        Event::NonceSet(_) => m.phase is ResettingNonce,
        Event::BatchResolved(outcomes) => m.phase is Aggregating && outcomes@.len()
            == m.in_flight,
        Event::BlockProduced(_) => m.phase is Advancing,
        Event::Paced => m.phase is Pacing,
    }
}

/// The model of a concrete event.
pub open spec fn event_model(e: Event) -> RunEvent {
    match e {
        Event::Start => RunEvent::Start,
        Event::NonceSet(ok) => RunEvent::NonceSet { ok },
        Event::BatchResolved(outcomes) => RunEvent::BatchResolved {
            succeeded: count_succeeded(outcomes@),
            failed: count_failed(outcomes@),
        },
        Event::BlockProduced(ok) => RunEvent::BlockProduced { ok },
        Event::Paced => RunEvent::Paced,
    }
}

/// `event_enabled`, stated over the event model alone.
pub open spec fn model_event_enabled(m: RunModel, e: RunEvent) -> bool {
    match e {
        RunEvent::Start => m.phase is Init,
        RunEvent::NonceSet { .. } => m.phase is ResettingNonce,
        RunEvent::BatchResolved { succeeded, failed } => {
            &&& m.phase is Aggregating
            &&& succeeded >= 0
            &&& failed >= 0
            &&& succeeded + failed == m.in_flight
        },
        RunEvent::BlockProduced { .. } => m.phase is Advancing,
        RunEvent::Paced => m.phase is Pacing,
    }
}

/// Handing out the next batch: `min(limit, remaining)` fresh requests,
/// recorded in the batch history, with the run moving to the aggregation
/// barrier.
pub open spec fn spec_dispatch(m: RunModel) -> (RunModel, RunAction) {
    let size = vstd::math::min(m.limit, m.total - m.submitted);
    (
        RunModel {
            phase: Phase::Aggregating,
            submitted: m.submitted + size,
            in_flight: size,
            batch_sizes: m.batch_sizes.push(size),
            ..m
        },
        RunAction::Submit { start: m.baseline + m.submitted, size },
    )
}

/// The transition function of a run: from a state and an event to the next
/// state and the action the outside must perform.
pub open spec fn run_step(m: RunModel, e: RunEvent) -> (RunModel, RunAction) {
    match e {
        RunEvent::Start => (
            RunModel { phase: Phase::ResettingNonce, ..m },
            RunAction::SetNonce { nonce: m.baseline },
        ),
        RunEvent::NonceSet { ok } => {
            if !ok {
                (RunModel { phase: Phase::Aborted, ..m }, RunAction::Abort)
            } else if m.submitted == m.total {
                (
                    RunModel { phase: Phase::Done, ..m },
                    RunAction::Report { succeeded: m.succeeded, failed: m.failed },
                )
            } else {
                spec_dispatch(m)
            }
        },
        RunEvent::BatchResolved { succeeded, failed } => (
            RunModel {
                phase: Phase::Advancing,
                succeeded: m.succeeded + succeeded,
                failed: m.failed + failed,
                in_flight: 0,
                ..m
            },
            RunAction::ProduceBlock,
        ),
        RunEvent::BlockProduced { ok: _ } => (
            RunModel { phase: Phase::Pacing, ..m },
            RunAction::Pace { millis: m.pause },
        ),
        RunEvent::Paced => {
            let m2 = RunModel { paces: m.paces + 1, ..m };
            if m2.submitted == m2.total {
                (
                    RunModel { phase: Phase::Done, ..m2 },
                    RunAction::Report { succeeded: m2.succeeded, failed: m2.failed },
                )
            } else {
                spec_dispatch(m2)
            }
        },
    }
}

/// The concrete action a step returns realizes the model action: a
/// handed-out batch carries consecutive nonces from its start and cycles
/// the template set by global submission index.
pub open spec fn action_matches(a: Action, ra: RunAction, m: RunModel) -> bool {
    match ra {
        RunAction::SetNonce { nonce } => a matches Action::SetNonce(n) && n == nonce,
        RunAction::Submit { start, size } => {
            &&& a matches Action::Submit(b)
            &&& b@.len() == size
            &&& forall|i: int| 0 <= i < size ==> (#[trigger] b@[i]).nonce == start + i
            &&& forall|i: int|
                0 <= i < size ==> (#[trigger] b@[i]).tx@ == m.templates[(start - m.baseline + i) % (
                m.templates.len() as int)]
        },
        RunAction::ProduceBlock => a is ProduceBlock,
        RunAction::Pace { millis } => a matches Action::Pace(p) && p == millis,
        RunAction::Report { succeeded, failed } => a matches Action::Report(t)
            && t.succeeded_count == succeeded && t.failed_count == failed,
        RunAction::Abort => a is Abort,
    }
}

/// A fatal initialization error: validated before any network activity.
#[derive(Debug, PartialEq, Eq, Clone, Copy)]
pub enum InitError {
    /// the template set is empty
    EmptyTemplateSet,
    /// the per-block limit is zero
    ZeroPerBlockLimit,
}

/// Drives the run: owns the template set, the nonce counter, the running
/// tally and the batch history.
pub struct Orchestrator {
    templates: Vec<Transaction>,
    total_count: u64,
    tx_per_block: u64,
    pause_ms: u64,
    nonces: NonceAllocator,
    tally: Tally,
    submitted: u64,
    in_flight: u64,
    phase: Phase,
    paces: u64,
    batch_sizes: Ghost<Seq<int>>,
}

impl View for Orchestrator {
    type V = RunModel;

    closed spec fn view(&self) -> RunModel {
        RunModel {
            templates: Seq::new(self.templates@.len(), |i: int| self.templates@[i]@),
            total: self.total_count as int,
            limit: self.tx_per_block as int,
            pause: self.pause_ms as int,
            baseline: self.nonces.baseline_spec() as int,
            phase: self.phase,
            submitted: self.submitted as int,
            succeeded: self.tally.succeeded_count as int,
            failed: self.tally.failed_count as int,
            in_flight: self.in_flight as int,
            batch_sizes: self.batch_sizes@,
            paces: self.paces as int,
        }
    }
}

impl Orchestrator {
    /// The nonce counter starts at the baseline and has issued exactly one
    /// nonce per request handed out to a batch.
    pub closed spec fn nonces_ok(&self) -> bool {
        &&& self.nonces.wf()
        &&& self.nonces.baseline_spec() == 0
        &&& self.nonces.next_spec() == self.submitted
    }

    /// The orchestrator invariant: established by `new`, preserved by
    /// `step`.
    pub closed spec fn wf(&self) -> bool {
        &&& run_inv(self@)
        &&& self.nonces_ok()
    }

    /// Every nonce issued so far, in order of issuance.
    pub closed spec fn issued_nonces(&self) -> Seq<u64> {
        self.nonces.issued_seq()
    }

    /// Validates the configuration and creates the run in its initial
    /// state: the template set must be non-empty and the per-block limit
    /// positive, checked in that order; fatal otherwise.
    pub fn new(config: Config) -> (r: Result<Orchestrator, InitError>)
        ensures
            r is Ok <==> (config.transactions@.len() >= 1 && config.tx_per_block >= 1),
            r matches Err(e) ==> e == (if config.transactions@.len() == 0 {
                InitError::EmptyTemplateSet
            } else {
                InitError::ZeroPerBlockLimit
            }),
            r matches Ok(o) ==> {
                &&& o.wf()
                &&& o@.phase is Init
                &&& o@.templates == Seq::new(
                    config.transactions@.len(),
                    |i: int| config.transactions@[i]@,
                )
                &&& o@.total == config.tx_amount
                &&& o@.limit == config.tx_per_block
                &&& o@.pause == config.block_mining_ms_pause
                &&& o@.baseline == 0
                &&& o@.submitted == 0
                &&& o@.succeeded == 0
                &&& o@.failed == 0
                &&& o@.batch_sizes == Seq::<int>::empty()
                &&& o@.paces == 0
                &&& o.issued_nonces() == Seq::<u64>::empty()
            },
    {
        if config.transactions.len() == 0 {
            return Err(InitError::EmptyTemplateSet);
        }
        if config.tx_per_block == 0 {
            return Err(InitError::ZeroPerBlockLimit);
        }
        Ok(
            Orchestrator {
                templates: config.transactions,
                total_count: config.tx_amount,
                tx_per_block: config.tx_per_block,
                pause_ms: config.block_mining_ms_pause,
                nonces: NonceAllocator::new(0),
                tally: Tally::new(),
                submitted: 0,
                in_flight: 0,
                phase: Phase::Init,
                paces: 0,
                batch_sizes: Ghost(Seq::empty()),
            },
        )
    }

    /// Builds and hands out the next batch: allocates one nonce per
    /// request, in submission order, before anything is dispatched, and
    /// cycles the template set by global submission index.
    #[verifier::loop_isolation(false)]
    fn dispatch_batch(&mut self) -> (action: Action)
        requires
            run_inv_base(old(self)@),
            old(self).nonces_ok(),
            old(self)@.in_flight == 0,
            old(self)@.succeeded + old(self)@.failed == old(self)@.submitted,
            old(self)@.paces == old(self)@.batch_sizes.len(),
            old(self)@.submitted < old(self)@.total,
        ensures
            final(self).wf(),
            final(self)@ == spec_dispatch(old(self)@).0,
            action_matches(action, spec_dispatch(old(self)@).1, old(self)@),
    {
        let ghost m0 = self@;
        let remaining = self.total_count - self.submitted;
        let size = if self.tx_per_block < remaining {
            self.tx_per_block
        } else {
            remaining
        };
        let n_templates = self.templates.len();
        let mut batch: Vec<SubmissionRequest> = Vec::new();
        let mut i: u64 = 0;
        while i < size
            invariant
                0 <= i <= size,
                batch@.len() == i,
                self@ == m0,
                self.nonces.wf(),
                self.nonces.baseline_spec() == 0,
                self.nonces.next_spec() == old(self).submitted + i,
                forall|j: int|
                    0 <= j < i ==> (#[trigger] batch@[j]).nonce == old(self)@.submitted + j,
                forall|j: int|
                    0 <= j < i ==> (#[trigger] batch@[j]).tx@ == m0.templates[(m0.submitted + j) % (
                    n_templates as int)],
            decreases size - i,
        {
            let nonce = self.nonces.allocate();
            let g = self.submitted + i;
            let idx = (g % (n_templates as u64)) as usize;
            let tx = self.templates[idx].clone();
            batch.push(SubmissionRequest { tx, nonce });
            i = i + 1;
        }
        self.submitted = self.submitted + size;
        self.in_flight = size;
        proof {
            self.batch_sizes@ = self.batch_sizes@.push(size as int);
        }
        self.phase = Phase::Aggregating;
        proof {
            let t = m0.total;
            let l = m0.limit;
            let k = m0.batch_sizes.len() as int;
            assert(m0.submitted == k * l) by {
                if k * l >= t {
                    assert(m0.submitted == t);
                }
            }
            assert((k + 1) * l == k * l + l) by (nonlinear_arith);
            assert(self@.submitted == vstd::math::min(t, (k + 1) * l));
            assert(self@ =~= spec_dispatch(m0).0);
        }
        Action::Submit(batch)
    }

    /// One move of the state machine: takes the event the outside just
    /// finished and returns the next action to perform. The whole
    /// behaviour is pinned to the model transition [`run_step`]: the new
    /// state is exactly its state, and the returned action realizes its
    /// action.
    pub fn step(&mut self, event: Event) -> (action: Action)
        requires
            old(self).wf(),
            event_enabled(old(self)@, event),
        ensures
            final(self).wf(),
            final(self)@ == run_step(old(self)@, event_model(event)).0,
            action_matches(action, run_step(old(self)@, event_model(event)).1, old(self)@),
    {
        match event {
            Event::Start => {
                self.phase = Phase::ResettingNonce;
                proof {
                    assert(self@ =~= run_step(old(self)@, event_model(event)).0);
                }
                Action::SetNonce(0)
            },
            Event::NonceSet(ok) => {
                if !ok {
                    self.phase = Phase::Aborted;
                    proof {
                        assert(self@ =~= run_step(old(self)@, event_model(event)).0);
                    }
                    Action::Abort
                } else if self.submitted == self.total_count {
                    self.phase = Phase::Done;
                    proof {
                        assert(self@ =~= run_step(old(self)@, event_model(event)).0);
                    }
                    Action::Report(self.tally)
                } else {
                    self.dispatch_batch()
                }
            },
            Event::BatchResolved(outcomes) => {
                proof {
                    lemma_all_outcomes_classified(outcomes@);
                }
                let delta = classify(&outcomes);
                self.tally.succeeded_count = self.tally.succeeded_count + delta.succeeded_count;
                self.tally.failed_count = self.tally.failed_count + delta.failed_count;
                self.in_flight = 0;
                self.phase = Phase::Advancing;
                proof {
                    assert(self@ =~= run_step(old(self)@, event_model(event)).0);
                }
                Action::ProduceBlock
            },
            Event::BlockProduced(_) => {
                self.phase = Phase::Pacing;
                proof {
                    assert(self@ =~= run_step(old(self)@, event_model(event)).0);
                }
                Action::Pace(self.pause_ms)
            },
            Event::Paced => {
                self.paces = self.paces + 1;
                if self.submitted == self.total_count {
                    self.phase = Phase::Done;
                    proof {
                        assert(self@ =~= run_step(old(self)@, event_model(event)).0);
                    }
                    Action::Report(self.tally)
                } else {
                    let action = self.dispatch_batch();
                    proof {
                        assert(self@ =~= run_step(old(self)@, event_model(event)).0);
                    }
                    action
                }
            },
        }
    }

    /// The phase the run stands in.
    pub fn phase(&self) -> (p: Phase)
        ensures
            p == self@.phase,
    {
        self.phase
    }

    /// The running tally.
    pub fn tally(&self) -> (t: Tally)
        ensures
            t.succeeded_count == self@.succeeded,
            t.failed_count == self@.failed,
    {
        self.tally
    }

    /// The exact number of batches completed so far, each of which was
    /// followed by one block production and one pacing pause.
    pub fn batches_paced(&self) -> (r: u64)
        ensures
            r == self@.paces,
    {
        self.paces
    }

    /// The legacy reported block count: integer division of the total by
    /// the per-block limit. It undercounts when the final batch is
    /// partial; it is kept as a separate reported figure beside the exact
    /// batch count.
    pub fn legacy_block_count(&self) -> (r: u64)
        requires
            self@.limit >= 1,
        ensures
            r == self@.total / self@.limit,
    {
        self.total_count / self.tx_per_block
    }
}

/// Law: at completion the tally accounts for every requested transaction,
/// across however many batches were processed: succeeded + failed equals
/// the total.
pub proof fn lemma_completion_tally(m: RunModel)
    requires
        run_inv(m),
        m.phase is Done,
    ensures
        m.succeeded + m.failed == m.total,
{
}

/// Law: the nonce sequence issued over a completed run is exactly
/// baseline, baseline + 1, ..., baseline + total - 1: issued in ascending
/// order, with no duplicates and no gaps.
pub proof fn lemma_nonce_sequence(o: Orchestrator)
    requires
        o.wf(),
        o@.phase is Done,
    ensures
        o.issued_nonces().len() == o@.total,
        forall|i: int|
            0 <= i < o.issued_nonces().len() ==> #[trigger] o.issued_nonces()[i] == o@.baseline
                + i,
        forall|i: int, j: int|
            0 <= i < j < o.issued_nonces().len() ==> o.issued_nonces()[i] < o.issued_nonces()[j],
{
    o.nonces.lemma_issued_range();
}

/// Law: a completed run processed exactly ceil(total / limit) batches;
/// every batch except possibly the last has exactly the per-block limit of
/// requests; the last has total mod limit, or the full limit when the
/// total divides evenly.
pub proof fn lemma_batch_shape(m: RunModel)
    requires
        run_inv(m),
        m.phase is Done,
    ensures
        m.batch_sizes.len() == spec_ceil_div(m.total, m.limit),
        forall|k: int|
            0 <= k < m.batch_sizes.len() - 1 ==> #[trigger] m.batch_sizes[k] == m.limit,
        m.total % m.limit == 0 && m.batch_sizes.len() >= 1 ==> m.batch_sizes.last() == m.limit,
        m.total % m.limit != 0 ==> m.batch_sizes.len() >= 1 && m.batch_sizes.last() == m.total
            % m.limit,
{
    let t = m.total;
    let l = m.limit;
    let k = m.batch_sizes.len() as int;
    if t == 0 {
        assert(k == 0) by {
            if k >= 1 {
                assert(0 * l < t);
            }
        }
        assert(spec_ceil_div(0, l) == 0) by {
            vstd::arithmetic::div_mod::lemma_basic_div(l - 1, l);
        }
    } else {
        assert(k >= 1) by {
            if k == 0 {
                assert(m.submitted == vstd::math::min(t, 0 * l));
            }
        }
        assert(t <= k * l) by {
            if k * l < t {
                assert(m.submitted == vstd::math::min(t, k * l));
            }
        }
        assert(m.batch_sizes[k - 1] == batch_size_at(t, l, k - 1) && (k - 1) * l < t);
        assert(k == spec_ceil_div(t, l)) by {
            let q = (t + l - 1) / l;
            let r = (t + l - 1) % l;
            vstd::arithmetic::div_mod::lemma_fundamental_div_mod(t + l - 1, l);
            assert(q == k) by (nonlinear_arith)
                requires
                    l >= 1,
                    (k - 1) * l < t,
                    t <= k * l,
                    t + l - 1 == q * l + r,
                    0 <= r < l,
            ;
        }
        // every batch but the last is full
        assert forall|j: int| 0 <= j < k - 1 implies #[trigger] m.batch_sizes[j] == l by {
            assert(m.batch_sizes[j + 1] == batch_size_at(t, l, j + 1));
            assert((j + 1) * l < t);
            assert((j + 1) * l == j * l + l) by (nonlinear_arith);
        }
        // the last batch
        let last = m.batch_sizes[k - 1];
        assert(last == batch_size_at(t, l, k - 1));
        let rest = t - (k - 1) * l;
        assert((k - 1) * l + l == k * l) by (nonlinear_arith);
        assert(1 <= rest <= l);
        if rest == l {
            assert(t == k * l);
            assert(t % l == 0) by {
                vstd::arithmetic::div_mod::lemma_mod_multiples_basic(k, l);
            }
            assert(last == l);
        } else {
            assert(last == rest);
            assert(t % l == rest) by {
                vstd::arithmetic::div_mod::lemma_fundamental_div_mod_converse(t, l, k - 1, rest);
            }
        }
    }
}

/// Law: pacing runs exactly once per batch over a completed run,
/// including after the final, possibly partial, batch.
pub proof fn lemma_pacing_per_batch(m: RunModel)
    requires
        run_inv(m),
        m.phase is Done,
    ensures
        m.paces == m.batch_sizes.len(),
{
}

/// Law: a failed block production changes nothing of the run's course:
/// the step taken on a failure report equals the step taken on a success
/// report, the run moves on to pacing, and when work remains the step
/// after the pause still hands out the next batch.
pub proof fn lemma_block_production_failure_nonfatal(m: RunModel, ok: bool)
    requires
        run_inv(m),
        m.phase is Advancing,
    ensures
        run_step(m, RunEvent::BlockProduced { ok }) == run_step(
            m,
            RunEvent::BlockProduced { ok: true },
        ),
        run_step(m, RunEvent::BlockProduced { ok }).0.phase is Pacing,
        run_step(m, RunEvent::BlockProduced { ok }).1 == (RunAction::Pace { millis: m.pause }),
        m.submitted < m.total ==> run_step(
            run_step(m, RunEvent::BlockProduced { ok }).0,
            RunEvent::Paced,
        ).1 is Submit,
{
}

/// Law: resolving a batch credits every one of its outcomes in one step: a
/// failed submission among them neither cancels its siblings nor keeps
/// them from being counted, and afterwards the tally again accounts for
/// every request submitted so far.
pub proof fn lemma_siblings_classified(m: RunModel, succeeded: int, failed: int)
    requires
        run_inv(m),
        m.phase is Aggregating,
        succeeded >= 0,
        failed >= 0,
        succeeded + failed == m.in_flight,
    ensures
        run_step(m, RunEvent::BatchResolved { succeeded, failed }).0.succeeded == m.succeeded
            + succeeded,
        run_step(m, RunEvent::BatchResolved { succeeded, failed }).0.failed == m.failed + failed,
        run_step(m, RunEvent::BatchResolved { succeeded, failed }).0.succeeded + run_step(
            m,
            RunEvent::BatchResolved { succeeded, failed },
        ).0.failed == m.submitted,
{
}

} // verus!
