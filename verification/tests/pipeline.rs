use xp3_audio_speedup::pipeline::{
    Action, Completion, Config, InputKind, Pipeline, PipelineError, Report, Stage, WorkingRoot,
};
use xp3_audio_speedup::speed::Speed;

fn config(input: InputKind, speed: f32, no_pack: bool) -> Config {
    Config { input, speed: Speed::from_bits(speed.to_bits()), no_pack }
}

/// Runs a pipeline to its end, answering every action with `answer`, and
/// returns the actions it asked for and its result.
fn drive(
    config: Config,
    answer: fn(Action) -> Report,
) -> (Vec<Action>, Result<Completion, PipelineError>) {
    let mut pipeline = Pipeline::new(config);
    let mut actions = Vec::new();
    loop {
        match pipeline.next_action() {
            Action::Stop(result) => return (actions, result),
            action => {
                actions.push(action);
                assert!(actions.len() <= 5);
                pipeline.advance(answer(action));
            }
        }
    }
}

fn all_good(_: Action) -> Report {
    Report::Succeeded
}

#[test]
fn archive_is_extracted_transcoded_backed_up_repacked_and_cleaned() {
    let (actions, result) = drive(config(InputKind::Archive, 1.5, false), all_good);
    assert_eq!(
        actions,
        vec![
            Action::Extract,
            Action::Transcode,
            Action::Backup,
            Action::Repack,
            Action::RemoveScratch,
        ]
    );
    assert_eq!(result, Ok(Completion::Repacked));
}

#[test]
fn directory_is_transcoded_and_repacked_without_backup_or_cleanup() {
    let (actions, result) = drive(config(InputKind::Directory, 2.0, false), all_good);
    assert_eq!(actions, vec![Action::Transcode, Action::Repack]);
    assert_eq!(result, Ok(Completion::Repacked));
}

#[test]
fn speed_of_one_skips_the_transcode_pass() {
    let (actions, result) = drive(config(InputKind::Archive, 1.0, false), all_good);
    assert_eq!(
        actions,
        vec![Action::Extract, Action::Backup, Action::Repack, Action::RemoveScratch]
    );
    assert_eq!(result, Ok(Completion::Repacked));
    let (actions, result) = drive(config(InputKind::Directory, 1.0, false), all_good);
    assert_eq!(actions, vec![Action::Repack]);
    assert_eq!(result, Ok(Completion::Repacked));
}

#[test]
fn no_pack_stops_after_the_transcode_pass() {
    let (actions, result) = drive(config(InputKind::Directory, 1.5, true), all_good);
    assert_eq!(actions, vec![Action::Transcode]);
    assert_eq!(result, Ok(Completion::Skipped));
    let (actions, result) = drive(config(InputKind::Archive, 1.5, true), all_good);
    assert_eq!(actions, vec![Action::Extract, Action::Transcode]);
    assert_eq!(result, Ok(Completion::Skipped));
}

#[test]
fn speed_of_one_without_packing_leaves_a_directory_alone() {
    let (actions, result) = drive(config(InputKind::Directory, 1.0, true), all_good);
    assert!(actions.is_empty());
    assert_eq!(result, Ok(Completion::Skipped));
}

#[test]
fn speed_of_one_without_packing_only_extracts_an_archive() {
    let (actions, result) = drive(config(InputKind::Archive, 1.0, true), all_good);
    assert_eq!(actions, vec![Action::Extract]);
    assert_eq!(result, Ok(Completion::Skipped));
}

#[test]
fn zero_speed_is_refused_before_any_action() {
    for input in [InputKind::Archive, InputKind::Directory] {
        for no_pack in [false, true] {
            let (actions, result) = drive(config(input, 0.0, no_pack), all_good);
            assert!(actions.is_empty());
            assert_eq!(result, Err(PipelineError::InvalidSpeed));
        }
    }
}

#[test]
fn negative_speed_is_refused_before_any_action() {
    for speed in [-1.0f32, -0.0, -0.001, f32::NEG_INFINITY] {
        let (actions, result) = drive(config(InputKind::Archive, speed, false), all_good);
        assert!(actions.is_empty());
        assert_eq!(result, Err(PipelineError::InvalidSpeed));
    }
}

#[test]
fn missing_input_is_refused_before_any_action() {
    let (actions, result) = drive(config(InputKind::Missing, 1.5, false), all_good);
    assert!(actions.is_empty());
    assert_eq!(result, Err(PipelineError::InputMissing));
    let (actions, result) = drive(config(InputKind::Missing, 0.0, false), all_good);
    assert!(actions.is_empty());
    assert_eq!(result, Err(PipelineError::InputMissing));
}

#[test]
fn failed_extraction_removes_the_scratch_directory() {
    let (actions, result) = drive(config(InputKind::Archive, 1.5, false), |action| match action {
        Action::Extract => Report::Failed,
        _ => Report::Succeeded,
    });
    assert_eq!(actions, vec![Action::Extract, Action::RemoveScratch]);
    assert_eq!(result, Err(PipelineError::Extract));
}

#[test]
fn failed_transcode_pass_stops_the_run() {
    let (actions, result) = drive(config(InputKind::Archive, 1.5, false), |action| match action {
        Action::Transcode => Report::Failed,
        _ => Report::Succeeded,
    });
    assert_eq!(actions, vec![Action::Extract, Action::Transcode, Action::RemoveScratch]);
    assert_eq!(result, Err(PipelineError::Transcode));
    let (actions, result) =
        drive(config(InputKind::Directory, 1.5, false), |_| Report::Failed);
    assert_eq!(actions, vec![Action::Transcode]);
    assert_eq!(result, Err(PipelineError::Transcode));
}

#[test]
fn failed_backup_never_repacks() {
    let (actions, result) = drive(config(InputKind::Archive, 1.5, false), |action| match action {
        Action::Backup => Report::Failed,
        _ => Report::Succeeded,
    });
    assert_eq!(
        actions,
        vec![Action::Extract, Action::Transcode, Action::Backup, Action::RemoveScratch]
    );
    assert_eq!(result, Err(PipelineError::Backup));
}

#[test]
fn failed_repack_keeps_the_backup_and_cleans_up() {
    let mut pipeline = Pipeline::new(config(InputKind::Archive, 1.5, false));
    pipeline.advance(Report::Succeeded);
    pipeline.advance(Report::Succeeded);
    pipeline.advance(Report::Succeeded);
    assert_eq!(pipeline.next_action(), Action::Repack);
    assert!(pipeline.backed_up);
    pipeline.advance(Report::Failed);
    assert_eq!(pipeline.stage, Stage::Failed(PipelineError::Repack));
    assert!(pipeline.backed_up);
    assert_eq!(pipeline.next_action(), Action::RemoveScratch);
    pipeline.advance(Report::Succeeded);
    assert_eq!(pipeline.next_action(), Action::Stop(Err(PipelineError::Repack)));
}

#[test]
fn failed_cleanup_does_not_change_the_result() {
    let (actions, result) = drive(config(InputKind::Archive, 1.5, false), |action| match action {
        Action::RemoveScratch => Report::Failed,
        _ => Report::Succeeded,
    });
    assert_eq!(actions.len(), 5);
    assert_eq!(result, Ok(Completion::Repacked));
}

#[test]
fn working_root_follows_the_input() {
    let pipeline = Pipeline::new(config(InputKind::Directory, 1.5, false));
    assert_eq!(pipeline.root, WorkingRoot::Supplied);
    assert_eq!(pipeline.stage, Stage::Resolved);
    let mut pipeline = Pipeline::new(config(InputKind::Archive, 1.5, false));
    assert_eq!(pipeline.root, WorkingRoot::Unresolved);
    assert_eq!(pipeline.stage, Stage::Start);
    pipeline.advance(Report::Succeeded);
    assert_eq!(pipeline.root, WorkingRoot::Scratch);
    assert_eq!(pipeline.stage, Stage::Resolved);
}

#[test]
fn stopped_run_stays_stopped() {
    let mut pipeline = Pipeline::new(config(InputKind::Directory, 1.0, true));
    assert_eq!(pipeline.next_action(), Action::Stop(Ok(Completion::Skipped)));
    pipeline.advance(Report::Succeeded);
    assert_eq!(pipeline.stage, Stage::Done(Ok(Completion::Skipped)));
    pipeline.advance(Report::Failed);
    assert_eq!(pipeline.next_action(), Action::Stop(Ok(Completion::Skipped)));
}

#[test]
fn every_run_stops_within_five_actions() {
    let answers: [fn(Action) -> Report; 3] = [
        all_good,
        |_| Report::Failed,
        |action| match action {
            Action::Repack => Report::Failed,
            _ => Report::Succeeded,
        },
    ];
    for input in [InputKind::Missing, InputKind::Directory, InputKind::Archive] {
        for speed in [0.0f32, 1.0, 1.5] {
            for no_pack in [false, true] {
                for answer in answers {
                    let (actions, _) = drive(config(input, speed, no_pack), answer);
                    assert!(actions.len() <= 5);
                    if input == InputKind::Directory {
                        assert!(!actions.contains(&Action::RemoveScratch));
                        assert!(!actions.contains(&Action::Backup));
                        assert!(!actions.contains(&Action::Extract));
                    }
                    if let Some(repack) = actions.iter().position(|a| *a == Action::Repack) {
                        assert!(!no_pack);
                        if input == InputKind::Archive {
                            let backup =
                                actions.iter().position(|a| *a == Action::Backup).unwrap();
                            assert!(backup < repack);
                        }
                    }
                }
            }
        }
    }
}
