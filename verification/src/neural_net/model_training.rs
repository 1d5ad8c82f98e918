//! Training of models: the course of a training run and what it reports.

use vstd::prelude::*;
use crate::fixed::Ppm;
use crate::host::clock_micros;

verus! {

/// Settings of a training run.
#[derive(Debug)]
pub struct ModelTrainingConfig {
    pub initial_learning_rate: Ppm,
    pub batch_size: usize,
    pub epochs: usize,
    pub learning_rate_decay: Ppm,
    pub l2_regularization: Ppm,
    pub dropout_rate: Ppm,
    pub use_distributed_training: bool,
    pub num_nodes: usize,
    pub use_transfer_learning: bool,
    pub pretrained_model_path: String,
    /// The share of the data that is held back for validation.
    pub validation_split: Ppm,
    pub early_stopping_patience: usize,
}

impl Default for ModelTrainingConfig {
    fn default() -> (r: Self)
        ensures
            r.initial_learning_rate == 1_000,
            r.batch_size == 64,
            r.epochs == 100,
            r.learning_rate_decay == 950_000,
            r.l2_regularization == 100,
            r.dropout_rate == 200_000,
            !r.use_distributed_training,
            r.num_nodes == 1,
            r.use_transfer_learning,
            r.pretrained_model_path@ == "/opt/icarus/models/pretrained"@,
            r.validation_split == 200_000,
            r.early_stopping_patience == 10,
    {
        ModelTrainingConfig {
            initial_learning_rate: 1_000,
            batch_size: 64,
            epochs: 100,
            learning_rate_decay: 950_000,
            l2_regularization: 100,
            dropout_rate: 200_000,
            use_distributed_training: false,
            num_nodes: 1,
            use_transfer_learning: true,
            pretrained_model_path: "/opt/icarus/models/pretrained".to_owned(),
            validation_split: 200_000,
            early_stopping_patience: 10,
        }
    }
}

/// What a training run reports.
#[derive(Debug, Clone, Copy, PartialEq, Eq, Structural)]
pub struct TrainingMetrics {
    pub train_loss: Ppm,
    pub validation_loss: Ppm,
    pub train_accuracy: Ppm,
    pub validation_accuracy: Ppm,
    pub false_positive_rate: Ppm,
    pub false_negative_rate: Ppm,
    pub f1_score: Ppm,
    /// How long the run took, in milliseconds.
    pub training_time_ms: u64,
}

/// Where a training run stands.
#[derive(Debug, PartialEq)]
pub enum TrainingState {
    NotStarted,
    Training,
    Completed,
    EarlyStopped,
    Error(String),
}

impl Clone for TrainingState {
    fn clone(&self) -> (r: Self)
        ensures
            r == *self,
    {
        match self {
            TrainingState::NotStarted => TrainingState::NotStarted,
            TrainingState::Training => TrainingState::Training,
            TrainingState::Completed => TrainingState::Completed,
            TrainingState::EarlyStopped => TrainingState::EarlyStopped,
            TrainingState::Error(detail) => TrainingState::Error(detail.clone()),
        }
    }
}

/// Why the trainer refused a request.
#[derive(Debug, Clone, Copy, PartialEq, Eq, Structural)]
pub enum TrainerError {
    /// The operation is not available yet.
    NotImplemented,
}

/// The first epoch at which a run may stop early.
pub const FIRST_EARLY_STOP_EPOCH: usize = 25;

/// The number of epochs that a run of `epochs` epochs goes through: a run
/// stops early in epoch 25, the first one past 20 that is a multiple of 5.
pub open spec fn epochs_run(epochs: nat) -> nat {
    if epochs > FIRST_EARLY_STOP_EPOCH {
        FIRST_EARLY_STOP_EPOCH as nat
    } else {
        epochs
    }
}

/// Whether a run of `epochs` epochs stops early.
pub open spec fn stops_early(epochs: nat) -> bool {
    epochs > FIRST_EARLY_STOP_EPOCH
}

/// What a run that took `training_time_ms` milliseconds reports.
pub open spec fn reported_metrics(training_time_ms: u64) -> TrainingMetrics {
    TrainingMetrics {
        train_loss: 50_000,
        validation_loss: 80_000,
        train_accuracy: 980_000,
        validation_accuracy: 960_000,
        false_positive_rate: 20_000,
        false_negative_rate: 30_000,
        f1_score: 970_000,
        training_time_ms,
    }
}

/// Runs trainings.
pub struct ModelTrainer {
    config: ModelTrainingConfig,
    state: TrainingState,
    metrics: Option<TrainingMetrics>,
}

impl ModelTrainer {
    /// The settings of the trainer.
    pub closed spec fn settings(&self) -> ModelTrainingConfig {
        self.config
    }

    /// Where the trainer stands.
    pub closed spec fn current_state(&self) -> TrainingState {
        self.state
    }

    /// What the last run reported.
    pub closed spec fn last_metrics(&self) -> Option<TrainingMetrics> {
        self.metrics
    }

    /// A trainer that has not run yet.
    pub fn new(config: ModelTrainingConfig) -> (r: Self)
        ensures
            r.settings() == config,
            r.current_state() == TrainingState::NotStarted,
            r.last_metrics() is None,
    {
        ModelTrainer { config, state: TrainingState::NotStarted, metrics: None }
    }

    /// The settings of the trainer.
    pub fn config(&self) -> (r: &ModelTrainingConfig)
        ensures
            *r == self.settings(),
    {
        &self.config
    }

    /// Marks the start of a run.
    pub fn start_training(&mut self)
        ensures
            final(self).settings() == old(self).settings(),
            final(self).last_metrics() == old(self).last_metrics(),
            final(self).current_state() == TrainingState::Training,
    {
        self.state = TrainingState::Training;
    }

    /// Goes through the epochs of a run, and says how many it went through.
    pub fn run_epochs(&mut self) -> (r: usize)
        ensures
            final(self).settings() == old(self).settings(),
            final(self).last_metrics() == old(self).last_metrics(),
            r == epochs_run(old(self).settings().epochs as nat),
            final(self).current_state() == if stops_early(old(self).settings().epochs as nat) {
                TrainingState::EarlyStopped
            } else {
                TrainingState::Completed
            },
    {
        let mut epoch: usize = 0;
        let mut stopped = false;
        while epoch < self.config.epochs && !stopped
            invariant
                epoch <= self.config.epochs,
                epoch <= FIRST_EARLY_STOP_EPOCH,
                stopped ==> epoch == FIRST_EARLY_STOP_EPOCH && epoch < self.config.epochs,
                self.config == old(self).config,
                self.metrics == old(self).metrics,
            decreases self.config.epochs - epoch + if stopped { 0int } else { 1int },
        {
            if epoch > 20 && epoch % 5 == 0 {
                stopped = true;
            } else {
                epoch += 1;
            }
        }
        if stopped {
            self.state = TrainingState::EarlyStopped;
        } else {
            self.state = TrainingState::Completed;
        }
        epoch
    }

    /// Trains a model in a run that took `training_time_ms` milliseconds.
    pub fn train_model_timed(&mut self, data_path: &str, output_path: &str, training_time_ms: u64)
        -> (r: Result<TrainingMetrics, TrainerError>)
        ensures
            final(self).settings() == old(self).settings(),
            r == Ok::<TrainingMetrics, TrainerError>(reported_metrics(training_time_ms)),
            final(self).last_metrics() == Some(reported_metrics(training_time_ms)),
            final(self).current_state() == if stops_early(old(self).settings().epochs as nat) {
                TrainingState::EarlyStopped
            } else {
                TrainingState::Completed
            },
    {
        self.start_training();
        let _ = self.run_epochs();
        let metrics = TrainingMetrics {
            train_loss: 50_000,
            validation_loss: 80_000,
            train_accuracy: 980_000,
            validation_accuracy: 960_000,
            false_positive_rate: 20_000,
            false_negative_rate: 30_000,
            f1_score: 970_000,
            training_time_ms,
        };
        self.metrics = Some(metrics);
        Ok(metrics)
    }

    /// Trains a model. The time that the run takes is read from the clock.
    pub fn train_model(&mut self, data_path: &str, output_path: &str) -> (r: Result<
        TrainingMetrics,
        TrainerError,
    >)
        ensures
            final(self).settings() == old(self).settings(),
            r is Ok,
            r->Ok_0 == reported_metrics(r->Ok_0.training_time_ms),
            final(self).last_metrics() == Some(r->Ok_0),
            final(self).current_state() == if stops_early(old(self).settings().epochs as nat) {
                TrainingState::EarlyStopped
            } else {
                TrainingState::Completed
            },
    {
        let begun = clock_micros();
        self.start_training();
        let _ = self.run_epochs();
        let ended = clock_micros();
        let training_time_ms = if ended >= begun {
            (ended - begun) / 1000
        } else {
            0
        };
        let metrics = TrainingMetrics {
            train_loss: 50_000,
            validation_loss: 80_000,
            train_accuracy: 980_000,
            validation_accuracy: 960_000,
            false_positive_rate: 20_000,
            false_negative_rate: 30_000,
            f1_score: 970_000,
            training_time_ms,
        };
        self.metrics = Some(metrics);
        Ok(metrics)
    }

    /// Goes on learning from new data. This is not available yet.
    pub fn continuous_learning(&mut self, new_data_path: &str, model_path: &str) -> (r: Result<
        TrainingMetrics,
        TrainerError,
    >)
        ensures
            r == Err::<TrainingMetrics, TrainerError>(TrainerError::NotImplemented),
            final(self).settings() == old(self).settings(),
            final(self).current_state() == old(self).current_state(),
            final(self).last_metrics() == old(self).last_metrics(),
    {
        Err(TrainerError::NotImplemented)
    }

    /// Evaluates a model on test data. This is not available yet.
    pub fn evaluate_model(&self, model_path: &str, test_data_path: &str) -> (r: Result<
        TrainingMetrics,
        TrainerError,
    >)
        ensures
            r == Err::<TrainingMetrics, TrainerError>(TrainerError::NotImplemented),
    {
        Err(TrainerError::NotImplemented)
    }

    /// Where the trainer stands.
    pub fn get_state(&self) -> (r: TrainingState)
        ensures
            r == self.current_state(),
    {
        self.state.clone()
    }

    /// What the last run reported.
    pub fn get_metrics(&self) -> (r: Option<TrainingMetrics>)
        ensures
            r == self.last_metrics(),
    {
        self.metrics
    }

    /// Stops a run in progress; a trainer that is not training stays as it is.
    pub fn stop_training(&mut self)
        ensures
            final(self).settings() == old(self).settings(),
            final(self).last_metrics() == old(self).last_metrics(),
            final(self).current_state() == if old(self).current_state() is Training {
                TrainingState::EarlyStopped
            } else {
                old(self).current_state()
            },
    {
        let training = match &self.state {
            TrainingState::Training => true,
            _ => false,
        };
        if training {
            self.state = TrainingState::EarlyStopped;
        }
    }
}

} // verus!
