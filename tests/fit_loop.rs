use classifier_training::batching::batch_count;
use classifier_training::config::TrainingConfig;
use classifier_training::evaluate::EvalError;
use classifier_training::fit::{Action, Event, FitError, FitLoop, MetricCounts, Split, Stage, StepStats};

/// What a simulated run asked its driver to do.
#[derive(Debug, Default)]
struct Tally {
    seeds: Vec<u64>,
    train_steps: usize,
    valid_steps: usize,
    checkpoints: Vec<(usize, MetricCounts, MetricCounts)>,
    final_saves: usize,
    outcome: Option<Result<(), FitError>>,
}

/// Drives a run over sources whose batches hold the given sample counts;
/// every prediction counts as correct on even-sized batches only.
fn drive(fit: &mut FitLoop, train: &[u64], valid: &[u64], save_ok: bool) -> Tally {
    let mut tally = Tally::default();
    let mut event = Event::Start;
    let mut train_pos = 0;
    let mut valid_pos = 0;
    for _ in 0..10_000 {
        match fit.next(event) {
            Action::Seed(seed) => {
                tally.seeds.push(seed);
                event = Event::Seeded;
            }
            Action::TrainStep { .. } => {
                if train_pos < train.len() {
                    let n = train[train_pos];
                    train_pos += 1;
                    tally.train_steps += 1;
                    let correct = if n % 2 == 0 { n } else { 0 };
                    event = Event::TrainStepDone(Ok(StepStats { samples: n, correct }));
                } else {
                    event = Event::SourceExhausted;
                }
            }
            Action::ValidStep { .. } => {
                if valid_pos < valid.len() {
                    let n = valid[valid_pos];
                    valid_pos += 1;
                    tally.valid_steps += 1;
                    event = Event::ValidStepDone(Ok(StepStats { samples: n, correct: n / 2 }));
                } else {
                    event = Event::SourceExhausted;
                }
            }
            Action::Checkpoint { epoch, train: t, valid: v } => {
                tally.checkpoints.push((epoch, t, v));
                train_pos = 0;
                valid_pos = 0;
                event = Event::CheckpointDone(true);
            }
            Action::SaveFinal => {
                tally.final_saves += 1;
                event = Event::FinalSaveDone(save_ok);
            }
            Action::Finish => {
                tally.outcome = Some(Ok(()));
                return tally;
            }
            Action::Abort(e) => {
                tally.outcome = Some(Err(e));
                return tally;
            }
        }
    }
    tally
}

fn batches(samples: usize, batch_size: usize) -> Vec<u64> {
    let n = batch_count(samples, batch_size);
    (0..n)
        .map(|i| {
            let left = samples - i * batch_size;
            left.min(batch_size) as u64
        })
        .collect()
}

#[test]
fn one_epoch_small_sources() {
    let config = TrainingConfig::new((), ()).with_num_epochs(1).with_batch_size(2).with_seed(7);
    let train = batches(4, config.batch_size);
    let valid = batches(2, config.batch_size);
    let mut fit = FitLoop::from_config(&config);
    let tally = drive(&mut fit, &train, &valid, true);
    assert_eq!(tally.seeds, vec![7]);
    assert_eq!(tally.train_steps, 2);
    assert_eq!(tally.valid_steps, 1);
    assert_eq!(tally.checkpoints.len(), 1);
    assert_eq!(tally.final_saves, 1);
    assert_eq!(tally.outcome, Some(Ok(())));
    assert_eq!(fit.stage, Stage::Finished);
    assert_eq!(fit.updates, 2);
}

#[test]
fn checkpoint_per_epoch() {
    for n in 0..6usize {
        let mut fit = FitLoop::new(n, 1);
        let tally = drive(&mut fit, &[3, 3], &[2], true);
        assert_eq!(tally.checkpoints.len(), n);
        let epochs: Vec<usize> = tally.checkpoints.iter().map(|c| c.0).collect();
        assert_eq!(epochs, (1..=n).collect::<Vec<usize>>());
        assert_eq!(tally.train_steps, 2 * n);
        assert_eq!(tally.valid_steps, n);
        assert_eq!(tally.final_saves, 1);
        assert_eq!(fit.checkpoints, n);
        assert_eq!(fit.stage, Stage::Finished);
    }
}

#[test]
fn epoch_metrics_reset_between_epochs() {
    let mut fit = FitLoop::new(2, 3);
    let tally = drive(&mut fit, &[2, 1], &[4, 2], true);
    for (_, t, v) in &tally.checkpoints {
        assert_eq!(*t, MetricCounts { batches: 2, samples: 3, correct: 2 });
        assert_eq!(*v, MetricCounts { batches: 2, samples: 6, correct: 3 });
    }
    assert_eq!(fit.updates, 4);
}

#[test]
fn seed_comes_first_and_once() {
    let mut fit = FitLoop::new(3, 99);
    assert_eq!(fit.next(Event::Start), Action::Seed(99));
    assert_eq!(fit.next(Event::Seeded), Action::TrainStep { epoch: 1 });
    let tally = drive(&mut FitLoop::new(3, 99), &[1], &[1], true);
    assert_eq!(tally.seeds, vec![99]);
}

#[test]
fn step_before_seed_is_refused() {
    let mut fit = FitLoop::new(1, 5);
    let event = Event::TrainStepDone(Ok(StepStats { samples: 2, correct: 1 }));
    assert_eq!(fit.next(event), Action::Abort(FitError::UnexpectedEvent));
    assert_eq!(fit.next(Event::Start), Action::Abort(FitError::UnexpectedEvent));
}

#[test]
fn validation_leaves_parameters() {
    let mut fit = FitLoop::new(1, 0);
    fit.next(Event::Start);
    fit.next(Event::Seeded);
    fit.next(Event::TrainStepDone(Ok(StepStats { samples: 2, correct: 2 })));
    assert_eq!(fit.updates, 1);
    assert_eq!(fit.next(Event::SourceExhausted), Action::ValidStep { epoch: 1 });
    for _ in 0..5 {
        let a = fit.next(Event::ValidStepDone(Ok(StepStats { samples: 2, correct: 1 })));
        assert_eq!(a, Action::ValidStep { epoch: 1 });
        assert_eq!(fit.updates, 1);
    }
    assert_eq!(fit.valid, MetricCounts { batches: 5, samples: 10, correct: 5 });
}

#[test]
fn failed_step_aborts_with_context() {
    let mut fit = FitLoop::new(2, 0);
    fit.next(Event::Start);
    fit.next(Event::Seeded);
    let a = fit.next(Event::TrainStepDone(Err(EvalError::ShapeMismatch)));
    let e = FitError::Step { epoch: 1, split: Split::Train, error: EvalError::ShapeMismatch };
    assert_eq!(a, Action::Abort(e));
    assert_eq!(fit.next(Event::SourceExhausted), Action::Abort(e));
    assert_eq!(fit.stage, Stage::Failed(e));
}

#[test]
fn empty_batch_aborts() {
    let mut fit = FitLoop::new(1, 0);
    fit.next(Event::Start);
    fit.next(Event::Seeded);
    fit.next(Event::SourceExhausted);
    let a = fit.next(Event::ValidStepDone(Ok(StepStats { samples: 0, correct: 0 })));
    let e = FitError::Step { epoch: 1, split: Split::Valid, error: EvalError::EmptyBatch };
    assert_eq!(a, Action::Abort(e));
}

#[test]
fn impossible_stats_abort() {
    let mut fit = FitLoop::new(1, 0);
    fit.next(Event::Start);
    fit.next(Event::Seeded);
    let a = fit.next(Event::TrainStepDone(Ok(StepStats { samples: 2, correct: 3 })));
    assert_eq!(a, Action::Abort(FitError::InvalidStats { epoch: 1, split: Split::Train }));
    assert_eq!(fit.updates, 0);
}

#[test]
fn counter_overflow_aborts() {
    let mut fit = FitLoop::new(1, 0);
    fit.next(Event::Start);
    fit.next(Event::Seeded);
    fit.next(Event::TrainStepDone(Ok(StepStats { samples: u64::MAX, correct: 0 })));
    let a = fit.next(Event::TrainStepDone(Ok(StepStats { samples: 1, correct: 0 })));
    assert_eq!(a, Action::Abort(FitError::CounterOverflow { epoch: 1, split: Split::Train }));
}

#[test]
fn failed_final_save_aborts() {
    let mut fit = FitLoop::new(1, 0);
    let tally = drive(&mut fit, &[1], &[1], false);
    assert_eq!(tally.final_saves, 1);
    assert_eq!(tally.outcome, Some(Err(FitError::FinalSave)));
}

#[test]
fn failed_checkpoint_continues() {
    let mut fit = FitLoop::new(2, 0);
    fit.next(Event::Start);
    fit.next(Event::Seeded);
    fit.next(Event::SourceExhausted);
    assert!(matches!(fit.next(Event::SourceExhausted), Action::Checkpoint { epoch: 1, .. }));
    assert_eq!(fit.next(Event::CheckpointDone(false)), Action::TrainStep { epoch: 2 });
}

#[test]
fn zero_epochs_saves_untrained_model() {
    let mut fit = FitLoop::new(0, 0);
    assert_eq!(fit.next(Event::Start), Action::Seed(0));
    assert_eq!(fit.next(Event::Seeded), Action::SaveFinal);
    assert_eq!(fit.next(Event::FinalSaveDone(true)), Action::Finish);
    assert_eq!(fit.next(Event::Start), Action::Finish);
    assert_eq!(fit.checkpoints, 0);
}

#[test]
fn same_events_same_actions() {
    let run = || {
        let mut fit = FitLoop::new(2, 11);
        let t = drive(&mut fit, &[5, 4, 1], &[3], true);
        (t.seeds, t.train_steps, t.valid_steps, t.checkpoints, fit)
    };
    assert_eq!(run(), run());
}
