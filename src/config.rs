use vstd::prelude::*;

verus! {

/// Epoch count used when the caller gives none.
pub const DEFAULT_NUM_EPOCHS: usize = 5;

/// Batch size used when the caller gives none.
pub const DEFAULT_BATCH_SIZE: usize = 64;

/// Number of data-loading workers used when the caller gives none.
pub const DEFAULT_NUM_WORKERS: usize = 4;

/// Random seed used when the caller gives none.
pub const DEFAULT_SEED: u64 = 42;

/// A learning rate written in scientific notation: `significand * 10^exp10`.
#[derive(Clone, Copy, Debug, PartialEq, Eq, Structural)]
pub struct LearningRate {
    pub significand: u64,
    pub exp10: i32,
}

impl LearningRate {
    /// The default learning rate, `1.0e-4`.
    pub fn default_rate() -> (r: LearningRate)
        ensures
            r == (LearningRate { significand: 1, exp10: -4i32 }),
    {
        LearningRate { significand: 1, exp10: -4 }
    }
}

/// All hyperparameters of one training run. The model and optimizer
/// sub-configurations are carried as given; the scalar settings have
/// defaults.
#[derive(Clone, Debug)]
pub struct TrainingConfig<M, O> {
    pub model: M,
    pub optimizer: O,
    pub num_epochs: usize,
    pub batch_size: usize,
    pub num_workers: usize,
    pub seed: u64,
    pub learning_rate: LearningRate,
}

impl<M, O> TrainingConfig<M, O> {
    /// Holds the scalar settings at their defaults.
    pub open spec fn has_defaults(&self) -> bool {
        &&& self.num_epochs == DEFAULT_NUM_EPOCHS
        &&& self.batch_size == DEFAULT_BATCH_SIZE
        &&& self.num_workers == DEFAULT_NUM_WORKERS
        &&& self.seed == DEFAULT_SEED
        &&& self.learning_rate == (LearningRate { significand: 1, exp10: -4i32 })
    }

    /// A configuration with the required sub-configurations and every other
    /// setting at its default.
    pub fn new(model: M, optimizer: O) -> (r: Self)
        ensures
            r.model == model,
            r.optimizer == optimizer,
            r.has_defaults(),
    {
        TrainingConfig {
            model,
            optimizer,
            num_epochs: DEFAULT_NUM_EPOCHS,
            batch_size: DEFAULT_BATCH_SIZE,
            num_workers: DEFAULT_NUM_WORKERS,
            seed: DEFAULT_SEED,
            learning_rate: LearningRate::default_rate(),
        }
    }

    /// The same configuration with another epoch count.
    pub fn with_num_epochs(self, num_epochs: usize) -> (r: Self)
        ensures
            r == (TrainingConfig { num_epochs, ..self }),
    {
        TrainingConfig { num_epochs, ..self }
    }

    /// The same configuration with another batch size.
    pub fn with_batch_size(self, batch_size: usize) -> (r: Self)
        ensures
            r == (TrainingConfig { batch_size, ..self }),
    {
        TrainingConfig { batch_size, ..self }
    }

    /// The same configuration with another worker count.
    pub fn with_num_workers(self, num_workers: usize) -> (r: Self)
        ensures
            r == (TrainingConfig { num_workers, ..self }),
    {
        TrainingConfig { num_workers, ..self }
    }

    /// The same configuration with another seed.
    pub fn with_seed(self, seed: u64) -> (r: Self)
        ensures
            r == (TrainingConfig { seed, ..self }),
    {
        TrainingConfig { seed, ..self }
    }

    /// The same configuration with another learning rate.
    pub fn with_learning_rate(self, learning_rate: LearningRate) -> (r: Self)
        ensures
            r == (TrainingConfig { learning_rate, ..self }),
    {
        TrainingConfig { learning_rate, ..self }
    }
}

} // verus!
