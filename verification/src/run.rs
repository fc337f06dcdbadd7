//! A run over a list of identifiers: the destination is prepared, then each
//! identifier is processed in turn, and what fails for one does not keep the
//! next from being processed.
//!
//! Like the pipeline for one identifier, a run does no I/O itself. `run` is
//! its decision function.

use crate::error::Failure;
use crate::extensions::file::{
    download, follows, outcome_ends_the_pipeline, Action, Event, Outcome, Request, State,
};
use vstd::prelude::*;

verus! {

/// What is asked for a run.
#[derive(Debug)]
pub struct Batch {
    /// The identifiers to process, in order.
    pub identifiers: Vec<String>,
    /// The directory in which artifacts are saved.
    pub destination: String,
    /// Fetch even what is there already.
    pub force: bool,
    /// The platform to take builds for, in place of this machine's.
    pub platform_override: Option<String>,
    /// This machine's platform.
    pub current: String,
}

/// How the processing of one identifier ended.
#[derive(Debug, Clone, Copy, PartialEq, Eq, Structural)]
pub enum ItemResult {
    /// The artifact was there already.
    Skipped,
    /// The artifact was fetched and saved.
    Saved,
    /// Nothing was saved.
    Failed(Failure),
}

/// Where a run stands.
#[derive(Debug)]
pub enum Progress {
    /// Nothing has been done yet.
    Ready,
    /// The destination is being prepared.
    Preparing,
    /// The identifiers before the one at `results.len()` are done with, and
    /// that one is being processed; its pipeline is in `state`.
    Working { results: Vec<ItemResult>, state: State },
    /// The last of `results` is being reported.
    Reporting { results: Vec<ItemResult> },
    /// The run is over.
    Finished,
}

/// What happened last in a run.
#[derive(Debug)]
pub enum Signal {
    /// The run begins.
    Started,
    /// The destination is there.
    Prepared,
    /// The destination is not there and could not be created.
    NotPrepared,
    /// What happened last for the identifier that is being processed.
    Item(Event),
    /// The outcome was reported.
    Reported,
}

/// Why a run was given up.
#[derive(Debug, Clone, Copy, PartialEq, Eq, Structural)]
pub enum Halt {
    /// Without a destination nothing can be saved.
    Destination,
    /// A signal came that the run was not waiting for.
    UnexpectedSignal,
}

/// What is to be done next in a run.
#[derive(Debug)]
pub enum Step {
    /// Make sure that the directory `destination` exists, creating it and
    /// what is missing above it, and signal whether it is there.
    Prepare { destination: String },
    /// Do `action` for the identifier at `index`, and signal what happened.
    Perform { index: usize, action: Action },
    /// Report `outcome` for the identifier at `index`, and signal when that
    /// is done.
    Report { index: usize, outcome: Outcome },
    /// Nothing more: every identifier was processed, with these results, in
    /// the order of the identifiers.
    Done { results: Vec<ItemResult> },
    /// Nothing more: the run is given up.
    Abort(Halt),
}

/// What is asked for the identifier at `index` of a run.
pub open spec fn request_for(batch: Batch, index: int) -> Request {
    Request {
        extension: batch.identifiers@[index],
        destination: batch.destination,
        force: batch.force,
        os_arch: batch.platform_override,
        current: batch.current,
    }
}

/// The result that an outcome stands for.
pub open spec fn result_of(outcome: Outcome) -> ItemResult {
    match outcome {
        Outcome::Skipped { .. } => ItemResult::Skipped,
        Outcome::Saved { .. } => ItemResult::Saved,
        Outcome::Failed(failure) => ItemResult::Failed(failure),
    }
}

/// The run is given up for `halt`.
pub open spec fn halts(next: Progress, step: Step, halt: Halt) -> bool {
    next is Finished && step == Step::Abort(halt)
}

/// With `results` for the identifiers before it, the run goes on with what
/// the pipeline for the next identifier does in `state` after `event`: its
/// action is passed on, and its outcome, once it has one, is recorded and
/// reported.
pub open spec fn advances(
    batch: Batch,
    results: Seq<ItemResult>,
    state: State,
    event: Event,
    next: Progress,
    step: Step,
) -> bool {
    match step {
        Step::Perform { index, action } => {
            &&& index == results.len()
            &&& !(action is Finish)
            &&& next matches Progress::Working { results: kept, state: reached }
            &&& kept@ == results
            &&& follows(request_for(batch, results.len() as int), state, event, reached, action)
        },
        Step::Report { index, outcome } => {
            &&& index == results.len()
            &&& next matches Progress::Reporting { results: grown }
            &&& grown@ == results.push(result_of(outcome))
            &&& follows(
                request_for(batch, results.len() as int),
                state,
                event,
                State::Finished,
                Action::Finish(outcome),
            )
        },
        _ => false,
    }
}

/// With `results` for the identifiers before it, the run turns to the next
/// identifier: it starts the pipeline for it, or is done if there is none.
pub open spec fn turns_to_next(
    batch: Batch,
    results: Seq<ItemResult>,
    next: Progress,
    step: Step,
) -> bool {
    if results.len() < batch.identifiers@.len() {
        advances(batch, results, State::Ready, Event::Started, next, step)
    } else {
        &&& next is Finished
        &&& step matches Step::Done { results: all }
        &&& all@ == results
    }
}

/// The rule of a run: in `progress`, after `signal`, it goes to `next` and
/// asks for `step`.
///
/// The destination is prepared first, and a run without a destination is
/// given up. Then the identifiers are processed one after the other, each by
/// its own pipeline; whatever the outcome for one, it is recorded and
/// reported, and the next is turned to.
pub open spec fn proceeds(
    batch: Batch,
    progress: Progress,
    signal: Signal,
    next: Progress,
    step: Step,
) -> bool {
    match (progress, signal) {
        (Progress::Ready, Signal::Started) => {
            &&& next is Preparing
            &&& step matches Step::Prepare { destination }
            &&& destination@ == batch.destination@
        },
        (Progress::Preparing, Signal::Prepared) => turns_to_next(batch, Seq::empty(), next, step),
        (Progress::Preparing, Signal::NotPrepared) => halts(next, step, Halt::Destination),
        (Progress::Working { results, state }, Signal::Item(event)) => if results@.len()
            < batch.identifiers@.len() {
            advances(batch, results@, state, event, next, step)
        } else {
            halts(next, step, Halt::UnexpectedSignal)
        },
        (Progress::Reporting { results }, Signal::Reported) => turns_to_next(
            batch,
            results@,
            next,
            step,
        ),
        _ => halts(next, step, Halt::UnexpectedSignal),
    }
}

/// What is asked for the identifier at `index`.
fn request(batch: &Batch, index: usize) -> (request: Request)
    requires
        index < batch.identifiers@.len(),
    ensures
        request == request_for(*batch, index as int),
{
    let os_arch = match &batch.platform_override {
        Some(platform) => Some(platform.clone()),
        None => None,
    };
    Request {
        extension: batch.identifiers[index].clone(),
        destination: batch.destination.clone(),
        force: batch.force,
        os_arch,
        current: batch.current.clone(),
    }
}

/// The result that `outcome` stands for.
fn result(outcome: &Outcome) -> (result: ItemResult)
    ensures
        result == result_of(*outcome),
{
    match outcome {
        Outcome::Skipped { .. } => ItemResult::Skipped,
        Outcome::Saved { .. } => ItemResult::Saved,
        Outcome::Failed(failure) => ItemResult::Failed(*failure),
    }
}

/// One step of the pipeline for the identifier that follows those with
/// `results`.
fn advance(batch: &Batch, results: Vec<ItemResult>, state: State, event: Event) -> (next: (
    Progress,
    Step,
))
    requires
        results@.len() < batch.identifiers@.len(),
    ensures
        advances(*batch, results@, state, event, next.0, next.1),
{
    let index = results.len();
    let request = request(batch, index);
    let (reached, action) = download(&request, state, event);
    match action {
        Action::Finish(outcome) => {
            proof {
                outcome_ends_the_pipeline(request, state, event, reached, action);
            }
            let mut results = results;
            results.push(result(&outcome));
            (Progress::Reporting { results }, Step::Report { index, outcome })
        },
        action => (Progress::Working { results, state: reached }, Step::Perform { index, action }),
    }
}

/// The run turning to the identifier that follows those with `results`.
fn turn_to_next(batch: &Batch, results: Vec<ItemResult>) -> (next: (Progress, Step))
    ensures
        turns_to_next(*batch, results@, next.0, next.1),
{
    if results.len() < batch.identifiers.len() {
        advance(batch, results, State::Ready, Event::Started)
    } else {
        (Progress::Finished, Step::Done { results })
    }
}

/// The run given up for `reason`.
fn halt(reason: Halt) -> (next: (Progress, Step))
    ensures
        halts(next.0, next.1, reason),
{
    (Progress::Finished, Step::Abort(reason))
}

/// Decides what a run does next: in `progress`, after `signal`, it gives
/// the progress to go to and the step to take.
pub fn run(batch: &Batch, progress: Progress, signal: Signal) -> (next: (Progress, Step))
    ensures
        proceeds(*batch, progress, signal, next.0, next.1),
{
    match (progress, signal) {
        (Progress::Ready, Signal::Started) => (
            Progress::Preparing,
            Step::Prepare { destination: batch.destination.clone() },
        ),
        (Progress::Preparing, Signal::Prepared) => turn_to_next(batch, Vec::new()),
        (Progress::Preparing, Signal::NotPrepared) => halt(Halt::Destination),
        (Progress::Working { results, state }, Signal::Item(event)) => if results.len()
            < batch.identifiers.len() {
            advance(batch, results, state, event)
        } else {
            halt(Halt::UnexpectedSignal)
        },
        (Progress::Reporting { results }, Signal::Reported) => turn_to_next(batch, results),
        _ => halt(Halt::UnexpectedSignal),
    }
}

/// The run has a result for each identifier that it is done with, and for
/// no other.
pub open spec fn counted(batch: Batch, progress: Progress) -> bool {
    match progress {
        Progress::Working { results, .. } => results@.len() < batch.identifiers@.len(),
        Progress::Reporting { results } => 1 <= results@.len() <= batch.identifiers@.len(),
        _ => true,
    }
}

/// A run keeps count: from a state that has a result for each identifier
/// done with it goes to another such state, and when it is done, it has a
/// result for every identifier. The state in which a run starts has none to
/// count.
pub proof fn run_has_a_result_for_each_identifier(
    batch: Batch,
    progress: Progress,
    signal: Signal,
    next: Progress,
    step: Step,
)
    requires
        counted(batch, progress),
        proceeds(batch, progress, signal, next, step),
    ensures
        counted(batch, next),
        step matches Step::Done { results } ==> results@.len() == batch.identifiers@.len(),
{
}

/// Once the outcome for an identifier is reported, the run turns to the
/// next identifier, whatever the outcome was, and is done after the last.
pub proof fn run_goes_on_after_any_outcome(
    batch: Batch,
    results: Vec<ItemResult>,
    next: Progress,
    step: Step,
)
    requires
        proceeds(batch, Progress::Reporting { results }, Signal::Reported, next, step),
    ensures
        results@.len() >= batch.identifiers@.len() ==> next is Finished && step is Done,
        results@.len() < batch.identifiers@.len() ==> (step matches Step::Perform { index, .. }
            && index == results@.len()) || (step matches Step::Report { index, .. } && index
            == results@.len()),
{
}

/// Nothing is done for any identifier before the destination is there, and
/// nothing at all without it.
pub proof fn run_prepares_destination_first(
    batch: Batch,
    progress: Progress,
    signal: Signal,
    next: Progress,
    step: Step,
)
    requires
        proceeds(batch, progress, signal, next, step),
    ensures
        progress is Ready ==> step is Prepare || step is Abort,
        step is Perform || step is Report ==> (progress is Preparing && signal is Prepared)
            || progress is Working || progress is Reporting,
        progress is Preparing && signal is NotPrepared ==> step == Step::Abort(Halt::Destination),
{
}

} // verus!
