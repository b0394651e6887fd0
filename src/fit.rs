use vstd::prelude::*;

use crate::config::TrainingConfig;
use crate::evaluate::EvalError;

verus! {

/// Which data source a step belongs to.
#[derive(Clone, Copy, Debug, PartialEq, Eq, Structural)]
pub enum Split {
    Train,
    Valid,
}

/// What one evaluated batch reports to the metric accumulators.
#[derive(Clone, Copy, Debug, PartialEq, Eq, Structural)]
pub struct StepStats {
    /// Samples in the batch.
    pub samples: u64,
    /// Samples whose predicted class equals the label.
    pub correct: u64,
}

/// Running per-epoch totals of one split.
#[derive(Clone, Copy, Debug, PartialEq, Eq, Structural)]
pub struct MetricCounts {
    pub batches: u64,
    pub samples: u64,
    pub correct: u64,
}

impl MetricCounts {
    pub open spec fn wf(&self) -> bool {
        self.correct <= self.samples
    }

    pub open spec fn zero() -> MetricCounts {
        MetricCounts { batches: 0, samples: 0, correct: 0 }
    }

    /// The totals after one more batch, or `None` when a total would not
    /// fit in a `u64`.
    pub open spec fn add_spec(self, stats: StepStats) -> Option<MetricCounts> {
        if self.batches + 1 > u64::MAX || self.samples + stats.samples > u64::MAX || self.correct
            + stats.correct > u64::MAX {
            None
        } else {
            Some(
                MetricCounts {
                    batches: (self.batches + 1) as u64,
                    samples: (self.samples + stats.samples) as u64,
                    correct: (self.correct + stats.correct) as u64,
                },
            )
        }
    }

    /// Totals of an epoch before its first batch.
    pub fn empty() -> (r: MetricCounts)
        ensures
            r == MetricCounts::zero(),
    {
        MetricCounts { batches: 0, samples: 0, correct: 0 }
    }

    /// Adds one batch to the totals.
    pub fn add(&self, stats: StepStats) -> (r: Option<MetricCounts>)
        ensures
            r == self.add_spec(stats),
    {
        match (self.batches.checked_add(1), self.samples.checked_add(stats.samples)) {
            (Some(batches), Some(samples)) => match self.correct.checked_add(stats.correct) {
                Some(correct) => Some(MetricCounts { batches, samples, correct }),
                None => None,
            },
            _ => None,
        }
    }
}

/// Why a run stopped before its final model was saved.
#[derive(Clone, Copy, Debug, PartialEq, Eq)]
pub enum FitError {
    /// A training or validation step failed on a batch.
    Step { epoch: usize, split: Split, error: EvalError },
    /// A step reported more correct predictions than samples.
    InvalidStats { epoch: usize, split: Split },
    /// A metric total or the update count no longer fits in a `u64`.
    CounterOverflow { epoch: usize, split: Split },
    /// The trained model could not be written.
    FinalSave,
    /// The driver reported an event that the current stage does not expect.
    UnexpectedEvent,
}

/// Where a run stands.
#[derive(Clone, Copy, Debug, PartialEq, Eq)]
pub enum Stage {
    /// Nothing has happened yet.
    Init,
    /// The random generator is being seeded.
    Seeding,
    /// Batches of the training source are consumed.
    Training,
    /// Batches of the validation source are consumed.
    Validating,
    /// The epoch's checkpoint is being written.
    Checkpointing,
    /// The trained model is being written.
    Saving,
    /// The run completed.
    Finished,
    /// The run stopped on an error.
    Failed(FitError),
}

/// What the driver reports after carrying out the last action.
#[derive(Clone, Copy, Debug, PartialEq, Eq)]
pub enum Event {
    /// The run begins.
    Start,
    /// The random generator was seeded.
    Seeded,
    /// A training batch went through the training step and the optimizer.
    TrainStepDone(Result<StepStats, EvalError>),
    /// A validation batch went through the validation step.
    ValidStepDone(Result<StepStats, EvalError>),
    /// The source that was asked for a batch has none left.
    SourceExhausted,
    /// The epoch's checkpoint was attempted; `false` when writing it failed.
    /// A lost checkpoint does not alter the trajectory, so the run goes on.
    CheckpointDone(bool),
    /// The final model was attempted; `false` when writing it failed.
    FinalSaveDone(bool),
}

/// What the driver must do next.
#[derive(Clone, Copy, Debug, PartialEq, Eq)]
pub enum Action {
    /// Seed the global random generator.
    Seed(u64),
    /// Take the next training batch, run the training step on it and apply
    /// the gradients with the optimizer; report `SourceExhausted` when the
    /// training source has no batch left.
    TrainStep { epoch: usize },
    /// Take the next validation batch and run the validation step on it;
    /// report `SourceExhausted` when the validation source has no batch left.
    ValidStep { epoch: usize },
    /// Record the epoch's metrics and write a checkpoint of the model.
    Checkpoint { epoch: usize, train: MetricCounts, valid: MetricCounts },
    /// Write the trained model.
    SaveFinal,
    /// The run is over; hand the trained model back.
    Finish,
    /// The run is over; report the error.
    Abort(FitError),
}

/// The fit loop: a fixed number of epochs, each a pass over the training
/// source and then over the validation source, closed by a checkpoint.
#[derive(Clone, Copy, Debug, PartialEq, Eq)]
pub struct FitLoop {
    pub num_epochs: usize,
    pub seed: u64,
    pub stage: Stage,
    /// The current epoch, counted from 1; 0 before the first.
    pub epoch: usize,
    pub train: MetricCounts,
    pub valid: MetricCounts,
    /// Checkpoints requested so far.
    pub checkpoints: usize,
    /// Parameter updates applied so far.
    pub updates: u64,
}

impl FitLoop {
    pub open spec fn initial(num_epochs: usize, seed: u64) -> FitLoop {
        FitLoop {
            num_epochs,
            seed,
            stage: Stage::Init,
            epoch: 0,
            train: MetricCounts::zero(),
            valid: MetricCounts::zero(),
            checkpoints: 0,
            updates: 0,
        }
    }

    pub open spec fn wf(&self) -> bool {
        &&& self.checkpoints <= self.num_epochs
        &&& self.epoch <= self.num_epochs
        &&& self.train.wf()
        &&& self.valid.wf()
        &&& match self.stage {
            Stage::Init | Stage::Seeding => self.epoch == 0 && self.checkpoints == 0,
            Stage::Training | Stage::Validating => 1 <= self.epoch && self.checkpoints + 1
                == self.epoch,
            Stage::Checkpointing => 1 <= self.epoch && self.checkpoints == self.epoch,
            Stage::Saving | Stage::Finished => self.checkpoints == self.num_epochs,
            Stage::Failed(_) => true,
        }
    }

    pub open spec fn fail_spec(self, error: FitError) -> (FitLoop, Action) {
        (FitLoop { stage: Stage::Failed(error), ..self }, Action::Abort(error))
    }

    pub open spec fn start_epoch_spec(self, epoch: usize) -> (FitLoop, Action) {
        (
            FitLoop {
                stage: Stage::Training,
                epoch,
                train: MetricCounts::zero(),
                valid: MetricCounts::zero(),
                ..self
            },
            Action::TrainStep { epoch },
        )
    }

    /// Counts a successful step of `split` and asks for the next batch.
    pub open spec fn record_spec(self, split: Split, stats: StepStats) -> (FitLoop, Action) {
        let counts = match split {
            Split::Train => self.train,
            Split::Valid => self.valid,
        };
        if stats.samples == 0 {
            self.fail_spec(
                FitError::Step { epoch: self.epoch, split, error: EvalError::EmptyBatch },
            )
        } else if stats.correct > stats.samples {
            self.fail_spec(FitError::InvalidStats { epoch: self.epoch, split })
        } else {
            match counts.add_spec(stats) {
                None => self.fail_spec(FitError::CounterOverflow { epoch: self.epoch, split }),
                Some(c) => match split {
                    Split::Train => if self.updates == u64::MAX {
                        self.fail_spec(FitError::CounterOverflow { epoch: self.epoch, split })
                    } else {
                        (
                            FitLoop { train: c, updates: (self.updates + 1) as u64, ..self },
                            Action::TrainStep { epoch: self.epoch },
                        )
                    },
                    Split::Valid => (
                        FitLoop { valid: c, ..self },
                        Action::ValidStep { epoch: self.epoch },
                    ),
                },
            }
        }
    }

    /// The next state and action of the fit loop after `event`.
    pub open spec fn transition(self, event: Event) -> (FitLoop, Action) {
        match self.stage {
            Stage::Finished => (self, Action::Finish),
            Stage::Failed(e) => (self, Action::Abort(e)),
            Stage::Init => match event {
                Event::Start => (FitLoop { stage: Stage::Seeding, ..self }, Action::Seed(self.seed)),
                _ => self.fail_spec(FitError::UnexpectedEvent),
            },
            Stage::Seeding => match event {
                Event::Seeded => if self.num_epochs == 0 {
                    (FitLoop { stage: Stage::Saving, ..self }, Action::SaveFinal)
                } else {
                    self.start_epoch_spec(1)
                },
                _ => self.fail_spec(FitError::UnexpectedEvent),
            },
            Stage::Training => match event {
                Event::TrainStepDone(Ok(stats)) => self.record_spec(Split::Train, stats),
                Event::TrainStepDone(Err(error)) => self.fail_spec(
                    FitError::Step { epoch: self.epoch, split: Split::Train, error },
                ),
                Event::SourceExhausted => (
                    FitLoop { stage: Stage::Validating, ..self },
                    Action::ValidStep { epoch: self.epoch },
                ),
                _ => self.fail_spec(FitError::UnexpectedEvent),
            },
            Stage::Validating => match event {
                Event::ValidStepDone(Ok(stats)) => self.record_spec(Split::Valid, stats),
                Event::ValidStepDone(Err(error)) => self.fail_spec(
                    FitError::Step { epoch: self.epoch, split: Split::Valid, error },
                ),
                Event::SourceExhausted => (
                    FitLoop {
                        stage: Stage::Checkpointing,
                        checkpoints: (self.checkpoints + 1) as usize,
                        ..self
                    },
                    Action::Checkpoint { epoch: self.epoch, train: self.train, valid: self.valid },
                ),
                _ => self.fail_spec(FitError::UnexpectedEvent),
            },
            Stage::Checkpointing => match event {
                Event::CheckpointDone(_) => if self.epoch < self.num_epochs {
                    self.start_epoch_spec((self.epoch + 1) as usize)
                } else {
                    (FitLoop { stage: Stage::Saving, ..self }, Action::SaveFinal)
                },
                _ => self.fail_spec(FitError::UnexpectedEvent),
            },
            Stage::Saving => match event {
                Event::FinalSaveDone(true) => (
                    FitLoop { stage: Stage::Finished, ..self },
                    Action::Finish,
                ),
                Event::FinalSaveDone(false) => self.fail_spec(FitError::FinalSave),
                _ => self.fail_spec(FitError::UnexpectedEvent),
            },
        }
    }

    /// A run of `num_epochs` epochs whose random generator is seeded with
    /// `seed`, before its first event.
    pub fn new(num_epochs: usize, seed: u64) -> (r: FitLoop)
        ensures
            r == FitLoop::initial(num_epochs, seed),
            r.wf(),
    {
        FitLoop {
            num_epochs,
            seed,
            stage: Stage::Init,
            epoch: 0,
            train: MetricCounts::empty(),
            valid: MetricCounts::empty(),
            checkpoints: 0,
            updates: 0,
        }
    }

    /// A run of the configured epoch count and seed, before its first event.
    pub fn from_config<M, O>(config: &TrainingConfig<M, O>) -> (r: FitLoop)
        ensures
            r == FitLoop::initial(config.num_epochs, config.seed),
            r.wf(),
    {
        FitLoop::new(config.num_epochs, config.seed)
    }

    fn fail(&mut self, error: FitError) -> (a: Action)
        ensures
            (*final(self), a) == old(self).fail_spec(error),
    {
        self.stage = Stage::Failed(error);
        Action::Abort(error)
    }

    fn start_epoch(&mut self, epoch: usize) -> (a: Action)
        ensures
            (*final(self), a) == old(self).start_epoch_spec(epoch),
    {
        self.stage = Stage::Training;
        self.epoch = epoch;
        self.train = MetricCounts::empty();
        self.valid = MetricCounts::empty();
        Action::TrainStep { epoch }
    }

    fn record(&mut self, split: Split, stats: StepStats) -> (a: Action)
        ensures
            (*final(self), a) == old(self).record_spec(split, stats),
    {
        let counts = match split {
            Split::Train => self.train,
            Split::Valid => self.valid,
        };
        if stats.samples == 0 {
            return self.fail(
                FitError::Step { epoch: self.epoch, split, error: EvalError::EmptyBatch },
            );
        }
        if stats.correct > stats.samples {
            return self.fail(FitError::InvalidStats { epoch: self.epoch, split });
        }
        match counts.add(stats) {
            None => self.fail(FitError::CounterOverflow { epoch: self.epoch, split }),
            Some(c) => match split {
                Split::Train => {
                    if self.updates == u64::MAX {
                        self.fail(FitError::CounterOverflow { epoch: self.epoch, split })
                    } else {
                        self.train = c;
                        self.updates = self.updates + 1;
                        Action::TrainStep { epoch: self.epoch }
                    }
                },
                Split::Valid => {
                    self.valid = c;
                    Action::ValidStep { epoch: self.epoch }
                },
            },
        }
    }

    /// Advances the run by one event and says what the driver must do next.
    pub fn next(&mut self, event: Event) -> (a: Action)
        requires
            old(self).wf(),
        ensures
            (*final(self), a) == old(self).transition(event),
            final(self).wf(),
    {
        proof {
            lemma_transition_wf(*self, event);
        }
        match self.stage {
            Stage::Finished => Action::Finish,
            Stage::Failed(e) => Action::Abort(e),
            Stage::Init => match event {
                Event::Start => {
                    self.stage = Stage::Seeding;
                    Action::Seed(self.seed)
                },
                _ => self.fail(FitError::UnexpectedEvent),
            },
            Stage::Seeding => match event {
                Event::Seeded => {
                    if self.num_epochs == 0 {
                        self.stage = Stage::Saving;
                        Action::SaveFinal
                    } else {
                        self.start_epoch(1)
                    }
                },
                _ => self.fail(FitError::UnexpectedEvent),
            },
            Stage::Training => match event {
                Event::TrainStepDone(Ok(stats)) => self.record(Split::Train, stats),
                Event::TrainStepDone(Err(error)) => self.fail(
                    FitError::Step { epoch: self.epoch, split: Split::Train, error },
                ),
                Event::SourceExhausted => {
                    self.stage = Stage::Validating;
                    Action::ValidStep { epoch: self.epoch }
                },
                _ => self.fail(FitError::UnexpectedEvent),
            },
            Stage::Validating => match event {
                Event::ValidStepDone(Ok(stats)) => self.record(Split::Valid, stats),
                Event::ValidStepDone(Err(error)) => self.fail(
                    FitError::Step { epoch: self.epoch, split: Split::Valid, error },
                ),
                Event::SourceExhausted => {
                    self.stage = Stage::Checkpointing;
                    self.checkpoints = self.checkpoints + 1;
                    Action::Checkpoint { epoch: self.epoch, train: self.train, valid: self.valid }
                },
                _ => self.fail(FitError::UnexpectedEvent),
            },
            Stage::Checkpointing => match event {
                Event::CheckpointDone(_) => {
                    if self.epoch < self.num_epochs {
                        self.start_epoch(self.epoch + 1)
                    } else {
                        self.stage = Stage::Saving;
                        Action::SaveFinal
                    }
                },
                _ => self.fail(FitError::UnexpectedEvent),
            },
            Stage::Saving => match event {
                Event::FinalSaveDone(true) => {
                    self.stage = Stage::Finished;
                    Action::Finish
                },
                Event::FinalSaveDone(false) => self.fail(FitError::FinalSave),
                _ => self.fail(FitError::UnexpectedEvent),
            },
        }
    }
}

/// One transition keeps the run well formed, and fixes how it may change
/// the counters and the stage.
pub proof fn lemma_transition_wf(s: FitLoop, event: Event)
    requires
        s.wf(),
    ensures
        ({
            let (q, a) = s.transition(event);
            &&& q.wf()
            &&& q.num_epochs == s.num_epochs
            &&& q.seed == s.seed
            &&& q.checkpoints == s.checkpoints + (if a is Checkpoint { 1int } else { 0int })
            &&& (a is TrainStep || a is ValidStep) ==> q.checkpoints < q.num_epochs
        }),
{
}

/// What any single transition does to the stage, the seed and the update
/// count, whether or not the run is well formed.
pub proof fn lemma_transition_shape(s: FitLoop, event: Event)
    ensures
        ({
            let (q, a) = s.transition(event);
            &&& !(q.stage is Init)
            &&& q.seed == s.seed
            &&& q.num_epochs == s.num_epochs
            &&& a is Seed ==> s.stage is Init && a == Action::Seed(s.seed)
            &&& s.stage is Init && !(a is Seed) ==> q.stage is Failed
            &&& s.stage is Failed ==> q.stage is Failed
            &&& (a is TrainStep || a is ValidStep) ==> !(q.stage is Failed)
            &&& !(event is TrainStepDone) ==> q.updates == s.updates
        }),
{
}

/// The state reached from `s` after `events`, and the actions asked for on
/// the way, one per event.
pub open spec fn run(s: FitLoop, events: Seq<Event>) -> (FitLoop, Seq<Action>)
    decreases events.len(),
{
    if events.len() == 0 {
        (s, Seq::empty())
    } else {
        let prev = run(s, events.drop_last());
        let next = prev.0.transition(events.last());
        (next.0, prev.1.push(next.1))
    }
}

/// How many checkpoints `actions` ask for.
pub open spec fn checkpoint_count(actions: Seq<Action>) -> nat
    decreases actions.len(),
{
    if actions.len() == 0 {
        0
    } else {
        checkpoint_count(actions.drop_last()) + if actions.last() is Checkpoint {
            1nat
        } else {
            0nat
        }
    }
}

pub open spec fn is_step(a: Action) -> bool {
    a is TrainStep || a is ValidStep
}

/// A run of `num_epochs` epochs asks for at most `num_epochs` checkpoints,
/// for exactly that many once it has finished, and for no training or
/// validation step after the last one.
pub proof fn lemma_epoch_count(num_epochs: usize, seed: u64, events: Seq<Event>)
    ensures
        ({
            let (s, actions) = run(FitLoop::initial(num_epochs, seed), events);
            &&& s.wf()
            &&& s.num_epochs == num_epochs
            &&& s.checkpoints == checkpoint_count(actions)
            &&& checkpoint_count(actions) <= num_epochs
            &&& s.stage is Finished ==> checkpoint_count(actions) == num_epochs
            &&& forall|i: int|
                0 <= i < actions.len() && is_step(#[trigger] actions[i]) ==> checkpoint_count(
                    actions.take(i),
                ) < num_epochs
        }),
    decreases events.len(),
{
    if events.len() > 0 {
        let prev = run(FitLoop::initial(num_epochs, seed), events.drop_last());
        lemma_epoch_count(num_epochs, seed, events.drop_last());
        lemma_transition_wf(prev.0, events.last());
        let next = prev.0.transition(events.last());
        let (s, actions) = run(FitLoop::initial(num_epochs, seed), events);
        assert(actions == prev.1.push(next.1));
        assert(actions.drop_last() =~= prev.1);
        assert(checkpoint_count(actions) == checkpoint_count(prev.1) + if next.1 is Checkpoint {
            1nat
        } else {
            0nat
        });
        assert forall|i: int|
            0 <= i < actions.len() && is_step(#[trigger] actions[i]) implies checkpoint_count(
            actions.take(i),
        ) < num_epochs by {
            if i < prev.1.len() {
                assert(actions.take(i) =~= prev.1.take(i));
                assert(actions[i] == prev.1[i]);
            } else {
                assert(actions.take(i) =~= prev.1);
                assert(actions[i] == next.1);
            }
        }
    }
}

/// The random generator is seeded at most once, by the first action of a
/// run, and no training or validation step is asked for unless that first
/// action seeded it with the configured seed.
pub proof fn lemma_seeded_once_first(num_epochs: usize, seed: u64, events: Seq<Event>)
    ensures
        ({
            let (s, actions) = run(FitLoop::initial(num_epochs, seed), events);
            &&& forall|i: int| 0 <= i < actions.len() && #[trigger] actions[i] is Seed ==> i == 0
            &&& forall|i: int|
                0 <= i < actions.len() && is_step(#[trigger] actions[i]) ==> actions[0]
                    == Action::Seed(seed)
            &&& s.seed == seed
            &&& s.stage is Init <==> actions.len() == 0
            &&& actions.len() > 0 && actions[0] != Action::Seed(seed) ==> s.stage is Failed
        }),
    decreases events.len(),
{
    if events.len() > 0 {
        let prev = run(FitLoop::initial(num_epochs, seed), events.drop_last());
        lemma_seeded_once_first(num_epochs, seed, events.drop_last());
        lemma_transition_shape(prev.0, events.last());
        let (s, actions) = run(FitLoop::initial(num_epochs, seed), events);
        assert(actions.drop_last() =~= prev.1);
        assert forall|i: int| 0 <= i < actions.len() && #[trigger] actions[i] is Seed implies i
            == 0 by {
            if i < prev.1.len() {
                assert(actions[i] == prev.1[i]);
            }
        }
        assert forall|i: int|
            0 <= i < actions.len() && is_step(#[trigger] actions[i]) implies actions[0]
            == Action::Seed(seed) by {
            if i < prev.1.len() {
                assert(actions[i] == prev.1[i]);
            }
        }
    }
}

/// Only training steps change the model's parameters: from any state, a
/// sequence of events with no training step in it, validation steps
/// included, leaves the update count as it was.
pub proof fn lemma_validation_keeps_parameters(s: FitLoop, events: Seq<Event>)
    requires
        forall|i: int| 0 <= i < events.len() ==> !(#[trigger] events[i] is TrainStepDone),
    ensures
        run(s, events).0.updates == s.updates,
    decreases events.len(),
{
    if events.len() > 0 {
        let prev = run(s, events.drop_last());
        assert forall|i: int| 0 <= i < events.drop_last().len() implies !(
        #[trigger] events.drop_last()[i] is TrainStepDone) by {
            assert(events.drop_last()[i] == events[i]);
        }
        lemma_validation_keeps_parameters(s, events.drop_last());
        lemma_transition_shape(prev.0, events.last());
    }
}

} // verus!
