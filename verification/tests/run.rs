use offline_vsix::error::{Failure, QueryError};
use offline_vsix::extensions::file::{Action, Event, Outcome, State};
use offline_vsix::run::{run, Batch, Halt, ItemResult, Progress, Signal, Step};

const BODY: &str =
    r#"{"results":[{"extensions":[{"versions":[{"version":"1.2.3","targetPlatform":"win32-x64"}]}]}]}"#;

fn batch(identifiers: &[&str], force: bool) -> Batch {
    Batch {
        identifiers: identifiers.iter().map(|name| name.to_string()).collect(),
        destination: "out".to_string(),
        force,
        platform_override: None,
        current: "win32-x64".to_string(),
    }
}

fn prepared(batch: &Batch) -> (Progress, Step) {
    let (progress, step) = run(batch, Progress::Ready, Signal::Started);
    assert!(matches!(progress, Progress::Preparing));
    assert!(matches!(&step, Step::Prepare { destination } if destination == "out"));
    run(batch, progress, Signal::Prepared)
}

fn answered(status: u16) -> Signal {
    Signal::Item(Event::QueryAnswered {
        status,
        body: BODY.to_string(),
    })
}

#[test]
fn run_without_identifiers_is_done_once_prepared() {
    let batch = batch(&[], false);
    let (progress, step) = prepared(&batch);
    assert!(matches!(progress, Progress::Finished));
    assert!(matches!(step, Step::Done { results } if results.is_empty()));
}

#[test]
fn run_is_given_up_without_destination() {
    let batch = batch(&["ms.python"], false);
    let (progress, _) = run(&batch, Progress::Ready, Signal::Started);
    let (progress, step) = run(&batch, progress, Signal::NotPrepared);
    assert!(matches!(progress, Progress::Finished));
    assert!(matches!(step, Step::Abort(Halt::Destination)));
}

#[test]
fn run_processes_each_identifier_in_turn() {
    let batch = batch(&["ms.python", "rust-lang.rust-analyzer"], false);
    let (progress, step) = prepared(&batch);
    assert!(matches!(
        &step,
        Step::Perform { index: 0, action: Action::Query(sent) } if sent.filter_value == "ms.python"
    ));
    let (progress, step) = run(&batch, progress, answered(200));
    assert!(matches!(
        &step,
        Step::Perform { index: 0, action: Action::Probe { file_path } }
            if file_path == "out/ms.python-1.2.3@win32-x64.vsix"
    ));
    let (progress, step) = run(&batch, progress, Signal::Item(Event::Probed { exists: true }));
    assert!(matches!(
        &progress,
        Progress::Reporting { results } if results == &vec![ItemResult::Skipped]
    ));
    assert!(matches!(
        &step,
        Step::Report { index: 0, outcome: Outcome::Skipped { file_path } }
            if file_path == "out/ms.python-1.2.3@win32-x64.vsix"
    ));
    let (progress, step) = run(&batch, progress, Signal::Reported);
    assert!(matches!(
        &progress,
        Progress::Working { results, state: State::Querying { name } }
            if results.len() == 1 && name.publisher == "rust-lang" && name.name == "rust-analyzer"
    ));
    assert!(matches!(
        &step,
        Step::Perform { index: 1, action: Action::Query(sent) }
            if sent.filter_value == "rust-lang.rust-analyzer"
    ));
    let (progress, step) = run(&batch, progress, Signal::Item(Event::QueryFailed));
    assert!(matches!(
        step,
        Step::Report {
            index: 1,
            outcome: Outcome::Failed(Failure::Query(QueryError::Transport))
        }
    ));
    let (progress, step) = run(&batch, progress, Signal::Reported);
    assert!(matches!(progress, Progress::Finished));
    match step {
        Step::Done { results } => assert_eq!(
            results,
            vec![
                ItemResult::Skipped,
                ItemResult::Failed(Failure::Query(QueryError::Transport))
            ]
        ),
        other => panic!("{other:?}"),
    }
}

#[test]
fn run_records_what_was_saved() {
    let batch = batch(&["ms.python"], true);
    let (progress, step) = prepared(&batch);
    assert!(matches!(
        &step,
        Step::Perform {
            index: 0,
            action: Action::Query(_)
        }
    ));
    let (progress, step) = run(&batch, progress, answered(200));
    assert!(matches!(
        &step,
        Step::Perform {
            index: 0,
            action: Action::Fetch { .. }
        }
    ));
    let received = Signal::Item(Event::PackageReceived {
        status: 200,
        encoding: None,
        content: vec![1, 2, 3],
    });
    let (progress, step) = run(&batch, progress, received);
    assert!(matches!(
        &step,
        Step::Perform { index: 0, action: Action::Save { content, .. } } if content == &[1, 2, 3]
    ));
    let (progress, step) = run(&batch, progress, Signal::Item(Event::Saved));
    assert!(matches!(
        &step,
        Step::Report {
            index: 0,
            outcome: Outcome::Saved { .. }
        }
    ));
    let (_, step) = run(&batch, progress, Signal::Reported);
    assert!(matches!(step, Step::Done { results } if results == vec![ItemResult::Saved]));
}

#[test]
fn run_goes_on_after_a_failure() {
    let batch = batch(&["python", "ms.python", ""], true);
    let (progress, step) = prepared(&batch);
    assert!(matches!(&progress, Progress::Reporting { results } if results.len() == 1));
    assert!(matches!(
        step,
        Step::Report {
            index: 0,
            outcome: Outcome::Failed(Failure::InvalidIdentifier)
        }
    ));
    let (progress, step) = run(&batch, progress, Signal::Reported);
    assert!(matches!(
        &step,
        Step::Perform {
            index: 1,
            action: Action::Query(_)
        }
    ));
    let (progress, step) = run(&batch, progress, answered(500));
    assert!(matches!(
        step,
        Step::Report {
            index: 1,
            outcome: Outcome::Failed(Failure::Query(QueryError::Http(500)))
        }
    ));
    let (progress, step) = run(&batch, progress, Signal::Reported);
    assert!(matches!(
        step,
        Step::Report {
            index: 2,
            outcome: Outcome::Failed(Failure::InvalidIdentifier)
        }
    ));
    let (progress, step) = run(&batch, progress, Signal::Reported);
    assert!(matches!(progress, Progress::Finished));
    match step {
        Step::Done { results } => assert_eq!(
            results,
            vec![
                ItemResult::Failed(Failure::InvalidIdentifier),
                ItemResult::Failed(Failure::Query(QueryError::Http(500))),
                ItemResult::Failed(Failure::InvalidIdentifier),
            ]
        ),
        other => panic!("{other:?}"),
    }
}

#[test]
fn run_is_given_up_on_a_signal_out_of_turn() {
    let batch = batch(&["ms.python"], false);
    let (progress, step) = run(&batch, Progress::Ready, Signal::Prepared);
    assert!(matches!(progress, Progress::Finished));
    assert!(matches!(step, Step::Abort(Halt::UnexpectedSignal)));
    let (_, step) = run(&batch, Progress::Finished, Signal::Started);
    assert!(matches!(step, Step::Abort(Halt::UnexpectedSignal)));
    let (_, step) = run(&batch, Progress::Preparing, Signal::Reported);
    assert!(matches!(step, Step::Abort(Halt::UnexpectedSignal)));
    let (_, step) = run(
        &batch,
        Progress::Reporting {
            results: Vec::new(),
        },
        Signal::Started,
    );
    assert!(matches!(step, Step::Abort(Halt::UnexpectedSignal)));
    let (_, step) = run(
        &batch,
        Progress::Working {
            results: vec![ItemResult::Saved],
            state: State::Ready,
        },
        Signal::Item(Event::Started),
    );
    assert!(matches!(step, Step::Abort(Halt::UnexpectedSignal)));
    let (progress, _) = prepared(&batch);
    let (_, step) = run(&batch, progress, Signal::Started);
    assert!(matches!(step, Step::Abort(Halt::UnexpectedSignal)));
}
