//! Runs the downloader, collects what failed, offers the operator another
//! attempt at the failures that may have passed, and runs those again, until
//! nothing fails or nothing is chosen.
//!
//! The module decides; it starts no process and asks no question. Its caller
//! carries out each `RetryAction` and reports what happened as the next
//! `RetryEvent`.

use crate::classifier::{
    classify, display_of, error_of, observe_line, observe_undecodable, undecodable_display_of,
    LineDisplay, Shown,
};
use crate::config::{
    format_args, output_args, single_item_command, Choices, Command, DownloadConfig, Invocation,
    PathStyle,
};
use crate::error::{description, BlobdlError, ErrorRecord, YtdlpError};
use crate::parser::Verbosity;
use crate::policy::{is_recoverable, recoverable, ErrorPolicyTable, Policy};
use vstd::prelude::*;

verus! {

/// The first option offered to the operator: try every listed item again.
pub const SELECT_ALL: &'static str = "Select all\n";

/// The second option offered to the operator: try nothing again.
pub const SELECT_NOTHING: &'static str = "Don't re-download anything\n";

/// The failures among `errors` that are worth a second attempt under
/// `policy`, in their order.
pub open spec fn recoverable_errors(policy: Policy, errors: Seq<ErrorRecord>) -> Seq<ErrorRecord> {
    errors.filter(|e: ErrorRecord| recoverable(policy, e.message))
}

/// The failures among `errors` that are final under `policy`, in their
/// order.
pub open spec fn unrecoverable_errors(policy: Policy, errors: Seq<ErrorRecord>) -> Seq<
    ErrorRecord,
> {
    errors.filter(|e: ErrorRecord| !recoverable(policy, e.message))
}

/// The options among which the operator chooses: everything, nothing, and
/// then one option for each failure that is worth a second attempt.
pub open spec fn retry_options(candidates: Seq<ErrorRecord>) -> Seq<Seq<char>> {
    seq![SELECT_ALL@, SELECT_NOTHING@] + candidates.map_values(|e: ErrorRecord| description(e))
}

/// The set of the indices that a selection holds.
pub open spec fn indices(selection: Seq<usize>) -> Set<int> {
    Set::new(|i: int| exists|k: int| 0 <= k < selection.len() && selection[k] == i)
}

/// The candidates whose own option is chosen, in the order of the
/// candidates. The option of candidate `i` has index `i + 2`.
pub open spec fn picked(candidates: Seq<ErrorRecord>, chosen: Set<int>) -> Seq<ErrorRecord>
    decreases candidates.len(),
{
    if candidates.len() == 0 {
        Seq::empty()
    } else {
        let before = picked(candidates.drop_last(), chosen);
        if chosen.contains(candidates.len() as int + 1) {
            before.push(candidates.last())
        } else {
            before
        }
    }
}

/// The failures that are tried again after the operator has chosen.
///
/// Option 0 stands for all candidates and option 1 for none of them; where
/// both are chosen, option 0 decides. Without either, each candidate whose
/// own option is chosen is tried again. An index that stands for no option
/// is ignored.
pub open spec fn chosen_errors(candidates: Seq<ErrorRecord>, chosen: Set<int>) -> Seq<
    ErrorRecord,
> {
    if chosen.contains(0) {
        candidates
    } else if chosen.contains(1) {
        Seq::empty()
    } else {
        picked(candidates, chosen)
    }
}

/// The runs that try the failures `errors` again, one for each and in
/// their order, with the choices `c`.
pub open spec fn rebuilt_commands(c: Choices, errors: Seq<ErrorRecord>, style: PathStyle) -> Seq<
    Command,
> {
    errors.map_values(|e: ErrorRecord| single_item_command(c, e.item_identifier, style))
}

/// What the retry loop needs to know and never changes: the preferences
/// that every run is built from, the policy, and how things are shown.
pub ghost struct Terms {
    pub choices: Choices,
    pub policy: Policy,
    pub verbosity: Verbosity,
    pub style: PathStyle,
}

/// The state of the retry loop, as a mathematical value.
pub ghost enum Phase {
    /// A run is under way. `pending` are the runs that follow it, and
    /// `errors` the failures collected since the operator was last asked.
    Running { pending: Seq<Command>, errors: Seq<ErrorRecord> },
    /// The operator is choosing among `candidates`.
    AwaitingSelection { candidates: Seq<ErrorRecord> },
    /// The runs for `chosen` are about to be built.
    Rebuilding { chosen: Seq<ErrorRecord> },
    /// Nothing more is run.
    Done,
}

/// What happened outside, as a mathematical value.
pub ghost enum Happening {
    Line(Seq<char>),
    Garbled,
    Exited,
    SpawnFailed(String),
    Selected(Set<int>),
    Proceed,
}

/// What is to be done outside, as a mathematical value.
pub ghost enum Order {
    Spawn(Command),
    Show(Shown),
    Prompt { unrecoverable: Seq<ErrorRecord>, options: Seq<Seq<char>> },
    Continue,
    Finish { unrecoverable: Seq<ErrorRecord> },
    Abort(BlobdlError),
}

/// The failure that a line adds to the collected ones, if any.
pub open spec fn with_error_of(errors: Seq<ErrorRecord>, line: Seq<char>) -> Seq<ErrorRecord> {
    match error_of(classify(line)) {
        Some(record) => errors.push(record),
        None => errors,
    }
}

/// What follows when the run under way has ended.
///
/// The next pending run is started. When none is left and nothing failed,
/// the loop is done. When all that failed is final, the loop is done too,
/// and the failures are reported. Otherwise the final failures are reported
/// and the operator is asked which of the others to try again.
pub open spec fn after_exit(terms: Terms, pending: Seq<Command>, errors: Seq<ErrorRecord>) -> (
    Phase,
    Order,
) {
    if pending.len() > 0 {
        (Phase::Running { pending: pending.drop_first(), errors }, Order::Spawn(pending[0]))
    } else {
        let candidates = recoverable_errors(terms.policy, errors);
        let unrecoverable = unrecoverable_errors(terms.policy, errors);
        if candidates.len() == 0 {
            (Phase::Done, Order::Finish { unrecoverable })
        } else {
            (
                Phase::AwaitingSelection { candidates },
                Order::Prompt { unrecoverable, options: retry_options(candidates) },
            )
        }
    }
}

/// What follows when the runs for `chosen` are built.
///
/// With nothing chosen the loop is done. The runs cannot be built without a
/// format, which ends the loop with that error. Otherwise the first run is
/// started and the others wait for their turn.
pub open spec fn after_rebuild(terms: Terms, chosen: Seq<ErrorRecord>) -> (Phase, Order) {
    if chosen.len() == 0 {
        (Phase::Done, Order::Finish { unrecoverable: Seq::empty() })
    } else if terms.choices.chosen_format is None {
        (Phase::Done, Order::Abort(BlobdlError::FormatPreferenceNotProvided))
    } else {
        let runs = rebuilt_commands(terms.choices, chosen, terms.style);
        (
            Phase::Running { pending: runs.drop_first(), errors: Seq::empty() },
            Order::Spawn(runs[0]),
        )
    }
}

/// The step of the retry loop: the state that follows `phase` when `event`
/// happens, and what is to be done then.
///
/// While a run is under way, each line is shown as the verbosity asks and
/// its failure, if it reports one, is collected; a line that is not valid
/// text is reported and skipped; a run that could not be started ends the
/// loop. Once the operator has chosen, the runs for the chosen failures can
/// be built. Nothing follows a loop that is done, and an event that a state
/// does not wait for ends the loop with an error.
pub open spec fn next(terms: Terms, phase: Phase, event: Happening) -> (Phase, Order) {
    match (phase, event) {
        (Phase::Running { pending, errors }, Happening::Line(line)) => (
            Phase::Running { pending, errors: with_error_of(errors, line) },
            Order::Show(display_of(classify(line), line, terms.verbosity)),
        ),
        (Phase::Running { pending, errors }, Happening::Garbled) => (
            phase,
            Order::Show(undecodable_display_of(terms.verbosity)),
        ),
        (Phase::Running { pending, errors }, Happening::Exited) => after_exit(
            terms,
            pending,
            errors,
        ),
        (Phase::Running { pending, errors }, Happening::SpawnFailed(reason)) => (
            Phase::Done,
            Order::Abort(BlobdlError::IoError(reason)),
        ),
        (Phase::AwaitingSelection { candidates }, Happening::Selected(chosen)) => (
            Phase::Rebuilding { chosen: chosen_errors(candidates, chosen) },
            Order::Continue,
        ),
        (Phase::Rebuilding { chosen }, Happening::Proceed) => after_rebuild(terms, chosen),
        (Phase::Done, _) => (Phase::Done, Order::Finish { unrecoverable: Seq::empty() }),
        _ => (Phase::Done, Order::Abort(BlobdlError::UnknownIssue)),
    }
}

/// A failure is offered for another attempt exactly when it was collected
/// and the policy holds it for recoverable; every other collected failure is
/// reported as final. Each offered failure has its own option behind the
/// two fixed ones.
pub proof fn law_offered_iff_recoverable(policy: Policy, errors: Seq<ErrorRecord>, e: ErrorRecord)
    ensures
        recoverable_errors(policy, errors).contains(e) <==> errors.contains(e) && recoverable(
            policy,
            e.message,
        ),
        unrecoverable_errors(policy, errors).contains(e) <==> errors.contains(e) && !recoverable(
            policy,
            e.message,
        ),
        retry_options(recoverable_errors(policy, errors)).len() == 2 + recoverable_errors(
            policy,
            errors,
        ).len(),
{
    lemma_filter_holds(errors, |x: ErrorRecord| recoverable(policy, x.message), e);
    lemma_filter_holds(errors, |x: ErrorRecord| !recoverable(policy, x.message), e);
}

/// What a filter keeps is what was there and meets the condition.
proof fn lemma_filter_holds(s: Seq<ErrorRecord>, keep: spec_fn(ErrorRecord) -> bool, e: ErrorRecord)
    ensures
        s.filter(keep).contains(e) <==> s.contains(e) && keep(e),
{
    let kept = s.filter(keep);
    if kept.contains(e) {
        let j = choose|j: int| 0 <= j < kept.len() && kept[j] == e;
        s.lemma_filter_pred(keep, j);
        s.lemma_filter_contains_rev(keep, e);
    }
    if s.contains(e) && keep(e) {
        let i = choose|i: int| 0 <= i < s.len() && s[i] == e;
        s.lemma_filter_contains(keep, i);
    }
}

/// Choosing everything tries every candidate again.
///
/// Let the operator be asked about `candidates` and choose option 0. With
/// no candidate the loop is done. Otherwise, where the format is settled, as
/// many runs are built as there are candidates. The run at each position is
/// the single-item run for the candidate at that position: it is built from
/// the same preferences as every other, never asks for the rest of a
/// playlist, and ends with the candidate's item. The first run is started
/// and the others wait in their order.
pub proof fn law_select_all_rebuilds_all(
    terms: Terms,
    candidates: Seq<ErrorRecord>,
    chosen: Set<int>,
)
    requires
        chosen.contains(0),
        terms.choices.chosen_format is Some,
    ensures
        ({
            let asked = Phase::AwaitingSelection { candidates };
            let (rebuilding, first_order) = next(terms, asked, Happening::Selected(chosen));
            let (after, second_order) = next(terms, rebuilding, Happening::Proceed);
            let runs = rebuilt_commands(terms.choices, candidates, terms.style);
            &&& rebuilding == Phase::Rebuilding { chosen: candidates }
            &&& first_order == Order::Continue
            &&& runs.len() == candidates.len()
            &&& forall|i: int|
                0 <= i < runs.len() ==> {
                    &&& #[trigger] runs[i] == single_item_command(
                        terms.choices,
                        candidates[i].item_identifier,
                        terms.style,
                    )
                    &&& runs[i].args.last() == candidates[i].item_identifier
                    &&& runs[i].args.drop_last().last() == "--no-playlist"@
                    &&& runs[i].args.drop_last().drop_last() == output_args(
                        terms.choices,
                        terms.style,
                    ) + format_args(terms.choices)
                }
            &&& candidates.len() == 0 ==> after == Phase::Done && second_order == Order::Finish {
                unrecoverable: Seq::empty(),
            }
            &&& candidates.len() > 0 ==> after == Phase::Running {
                pending: runs.drop_first(),
                errors: Seq::empty(),
            } && second_order == Order::Spawn(runs[0])
        }),
{
    let runs = rebuilt_commands(terms.choices, candidates, terms.style);
    assert forall|i: int| 0 <= i < runs.len() implies {
        &&& runs[i].args.last() == candidates[i].item_identifier
        &&& runs[i].args.drop_last().last() == "--no-playlist"@
        &&& runs[i].args.drop_last().drop_last() == output_args(terms.choices, terms.style)
            + format_args(terms.choices)
    } by {
        let prefix = output_args(terms.choices, terms.style) + format_args(terms.choices);
        let args = runs[i].args;
        assert(args == prefix + seq!["--no-playlist"@, candidates[i].item_identifier]);
        assert(args.drop_last() =~= prefix.push("--no-playlist"@));
        assert(args.drop_last().drop_last() =~= prefix);
    }
}

/// Choosing nothing ends the loop.
///
/// Let the operator be asked about `candidates` and choose option 1 without
/// option 0, or no option at all. Then no failure is tried again, no run is
/// built, and the loop is done.
pub proof fn law_select_none_ends(terms: Terms, candidates: Seq<ErrorRecord>, chosen: Set<int>)
    requires
        !chosen.contains(0),
        chosen.contains(1) || chosen == Set::<int>::empty(),
    ensures
        ({
            let asked = Phase::AwaitingSelection { candidates };
            let (rebuilding, first_order) = next(terms, asked, Happening::Selected(chosen));
            let (after, second_order) = next(terms, rebuilding, Happening::Proceed);
            &&& chosen_errors(candidates, chosen).len() == 0
            &&& rebuilt_commands(terms.choices, chosen_errors(candidates, chosen), terms.style).len()
                == 0
            &&& rebuilding == Phase::Rebuilding { chosen: Seq::empty() }
            &&& first_order == Order::Continue
            &&& after == Phase::Done
            &&& second_order == Order::Finish { unrecoverable: Seq::empty() }
        }),
{
    if !chosen.contains(1) {
        lemma_picked_nothing(candidates);
    }
}

/// With no option chosen, no candidate is picked.
proof fn lemma_picked_nothing(candidates: Seq<ErrorRecord>)
    ensures
        picked(candidates, Set::empty()) == Seq::<ErrorRecord>::empty(),
    decreases candidates.len(),
{
    if candidates.len() > 0 {
        lemma_picked_nothing(candidates.drop_last());
    }
}

/// Parts the collected failures into those worth a second attempt, which
/// come first in the result, and those that are final.
pub fn partition_errors(errors: &Vec<YtdlpError>, table: &ErrorPolicyTable) -> (r: (
    Vec<YtdlpError>,
    Vec<YtdlpError>,
))
    ensures
        r.0.deep_view() == recoverable_errors(table@, errors.deep_view()),
        r.1.deep_view() == unrecoverable_errors(table@, errors.deep_view()),
{
    let ghost all = errors.deep_view();
    let mut retry: Vec<YtdlpError> = Vec::new();
    let mut last: Vec<YtdlpError> = Vec::new();
    let mut i: usize = 0;
    proof {
        reveal(Seq::filter);
        assert(all.take(0) =~= Seq::<ErrorRecord>::empty());
        assert(retry.deep_view() =~= Seq::<ErrorRecord>::empty());
        assert(last.deep_view() =~= Seq::<ErrorRecord>::empty());
    }
    while i < errors.len()
        invariant
            i <= errors.len(),
            all == errors.deep_view(),
            retry.deep_view() == recoverable_errors(table@, all.take(i as int)),
            last.deep_view() == unrecoverable_errors(table@, all.take(i as int)),
        decreases errors.len() - i,
    {
        let ghost retry_before = retry.deep_view();
        let ghost last_before = last.deep_view();
        let error = errors[i].clone();
        proof {
            let prefix = all.take(i as int);
            assert(all.take(i + 1) =~= prefix.push(error@));
            prefix.lemma_filter_push(error@, |e: ErrorRecord| recoverable(table@, e.message));
            prefix.lemma_filter_push(error@, |e: ErrorRecord| !recoverable(table@, e.message));
        }
        if is_recoverable(&error, table) {
            retry.push(error);
            assert(retry.deep_view() =~= retry_before.push(error@));
        } else {
            last.push(error);
            assert(last.deep_view() =~= last_before.push(error@));
        }
        i += 1;
    }
    assert(all.take(i as int) =~= all);
    (retry, last)
}

/// Lists the options among which the operator chooses.
pub fn list_retry_options(candidates: &Vec<YtdlpError>) -> (r: Vec<String>)
    ensures
        r.deep_view() == retry_options(candidates.deep_view()),
{
    let mut options: Vec<String> = Vec::new();
    options.push(SELECT_ALL.to_owned());
    options.push(SELECT_NOTHING.to_owned());
    let mut i: usize = 0;
    while i < candidates.len()
        invariant
            i <= candidates.len(),
            options.deep_view() == retry_options(candidates.deep_view().take(i as int)),
        decreases candidates.len() - i,
    {
        let ghost before = options.deep_view();
        let text = candidates[i].describe();
        options.push(text);
        assert(options.deep_view() =~= before.push(text@));
        assert(candidates.deep_view().take(i + 1) =~= candidates.deep_view().take(i as int).push(
            candidates[i as int]@,
        ));
        i += 1;
    }
    assert(candidates.deep_view().take(i as int) =~= candidates.deep_view());
    options
}

/// Whether a selection holds the index `index`.
pub fn selection_holds(selection: &Vec<usize>, index: usize) -> (r: bool)
    ensures
        r == indices(selection@).contains(index as int),
{
    let mut k: usize = 0;
    while k < selection.len()
        invariant
            k <= selection.len(),
            forall|j: int| 0 <= j < k ==> selection@[j] != index,
        decreases selection.len() - k,
    {
        if selection[k] == index {
            return true;
        }
        k += 1;
    }
    false
}

/// Picks the failures that are tried again after the operator has chosen.
pub fn select_errors(candidates: &Vec<YtdlpError>, selection: &Vec<usize>) -> (r: Vec<YtdlpError>)
    ensures
        r.deep_view() == chosen_errors(candidates.deep_view(), indices(selection@)),
{
    let ghost all = candidates.deep_view();
    let ghost chosen = indices(selection@);
    let everything = selection_holds(selection, 0);
    let nothing = selection_holds(selection, 1);
    let mut out: Vec<YtdlpError> = Vec::new();
    if nothing && !everything {
        assert(out.deep_view() =~= Seq::<ErrorRecord>::empty());
        return out;
    }
    let mut i: usize = 0;
    assert(all.take(0) =~= Seq::<ErrorRecord>::empty());
    assert(out.deep_view() =~= Seq::<ErrorRecord>::empty());
    while i < candidates.len()
        invariant
            i <= candidates.len(),
            all == candidates.deep_view(),
            chosen == indices(selection@),
            everything == chosen.contains(0),
            out.deep_view() == if everything {
                all.take(i as int)
            } else {
                picked(all.take(i as int), chosen)
            },
        decreases candidates.len() - i,
    {
        let ghost before = out.deep_view();
        assert(all.take(i + 1).drop_last() =~= all.take(i as int));
        assert(all.take(i + 1).last() == candidates[i as int]@);
        let take = everything || (i <= usize::MAX - 2 && selection_holds(selection, i + 2));
        proof {
            if i > usize::MAX - 2 {
                assert(!chosen.contains(i + 2));
            }
        }
        if take {
            let error = candidates[i].clone();
            out.push(error);
            assert(out.deep_view() =~= before.push(error@));
            assert(all.take(i + 1) =~= all.take(i as int).push(error@));
        }
        i += 1;
    }
    assert(all.take(i as int) =~= all);
    out
}

/// Builds the runs that try the failures `errors` again, one for each and
/// in their order. Each run has the preferences of `config` and is for the
/// single item that its failure names.
///
/// With no failure there is nothing to build. Otherwise the format has to be
/// settled.
pub fn rebuild_invocations(config: &DownloadConfig, errors: &Vec<YtdlpError>, style: PathStyle) -> (r:
    Result<Vec<Invocation>, BlobdlError>)
    ensures
        match r {
            Ok(invocations) => (errors.len() == 0 || config@.chosen_format is Some)
                && invocations.deep_view() == rebuilt_commands(
                config@,
                errors.deep_view(),
                style,
            ),
            Err(e) => errors.len() > 0 && config@.chosen_format is None && e
                == BlobdlError::FormatPreferenceNotProvided,
        },
{
    let ghost all = errors.deep_view();
    let mut out: Vec<Invocation> = Vec::new();
    let mut i: usize = 0;
    assert(out.deep_view() =~= rebuilt_commands(config@, all.take(0), style));
    while i < errors.len()
        invariant
            i <= errors.len(),
            all == errors.deep_view(),
            i > 0 ==> config@.chosen_format is Some,
            out.deep_view() == rebuilt_commands(config@, all.take(i as int), style),
        decreases errors.len() - i,
    {
        let ghost before = out.deep_view();
        let invocation = config.build_command_for_video(errors[i].video_id().as_str(), style)?;
        out.push(invocation);
        assert(out.deep_view() =~= before.push(invocation@));
        assert(all.take(i + 1) =~= all.take(i as int).push(errors[i as int]@));
        assert(out.deep_view() =~= rebuilt_commands(config@, all.take(i + 1), style));
        i += 1;
    }
    assert(all.take(i as int) =~= all);
    Ok(out)
}

/// What the retry loop needs to know and never changes.
pub struct RetrySettings {
    /// The preferences that every run is built from.
    pub config: DownloadConfig,
    /// Which failures are worth a second attempt.
    pub table: ErrorPolicyTable,
    /// How much of the downloader's output is shown.
    pub verbosity: Verbosity,
    /// How paths are written on this machine.
    pub style: PathStyle,
}

impl View for RetrySettings {
    type V = Terms;

    open spec fn view(&self) -> Terms {
        Terms {
            choices: self.config@,
            policy: self.table@,
            verbosity: self.verbosity,
            style: self.style,
        }
    }
}

/// The state of the retry loop.
#[derive(Debug)]
pub enum RetryState {
    /// A run is under way. `pending` are the runs that follow it, and
    /// `errors` the failures collected since the operator was last asked.
    Running { pending: Vec<Invocation>, errors: Vec<YtdlpError> },
    /// The operator is choosing among `candidates`.
    AwaitingSelection { candidates: Vec<YtdlpError> },
    /// The runs for `chosen` are about to be built.
    Rebuilding { chosen: Vec<YtdlpError> },
    /// Nothing more is run.
    Done,
}

impl View for RetryState {
    type V = Phase;

    open spec fn view(&self) -> Phase {
        match self {
            RetryState::Running { pending, errors } => Phase::Running {
                pending: pending.deep_view(),
                errors: errors.deep_view(),
            },
            RetryState::AwaitingSelection { candidates } => Phase::AwaitingSelection {
                candidates: candidates.deep_view(),
            },
            RetryState::Rebuilding { chosen } => Phase::Rebuilding { chosen: chosen.deep_view() },
            RetryState::Done => Phase::Done,
        }
    }
}

/// What happened outside since the last action.
#[derive(Debug)]
pub enum RetryEvent {
    /// The run under way wrote this line.
    Line(String),
    /// The run under way wrote a line that is not valid text.
    Garbled,
    /// The run under way has ended.
    Exited,
    /// The run could not be started; the text says why.
    SpawnFailed(String),
    /// The operator chose the options with these indices.
    Selected(Vec<usize>),
    /// Nothing had to be done outside.
    Proceed,
}

impl View for RetryEvent {
    type V = Happening;

    open spec fn view(&self) -> Happening {
        match self {
            RetryEvent::Line(line) => Happening::Line(line@),
            RetryEvent::Garbled => Happening::Garbled,
            RetryEvent::Exited => Happening::Exited,
            RetryEvent::SpawnFailed(reason) => Happening::SpawnFailed(*reason),
            RetryEvent::Selected(selection) => Happening::Selected(indices(selection@)),
            RetryEvent::Proceed => Happening::Proceed,
        }
    }
}

/// What the caller does next.
#[derive(Debug)]
pub enum RetryAction {
    /// Start this run and report its lines, then that it has ended.
    Spawn(Invocation),
    /// Show the last line in this way and go on reading.
    Show(LineDisplay),
    /// Report the failures that are final, let the operator choose among the
    /// options, and report the choice.
    Prompt { unrecoverable: Vec<YtdlpError>, options: Vec<String> },
    /// Nothing is to be done outside: report `Proceed`.
    Continue,
    /// Report the failures that are final, and stop.
    Finish { unrecoverable: Vec<YtdlpError> },
    /// Stop with this error.
    Abort(BlobdlError),
}

impl View for RetryAction {
    type V = Order;

    open spec fn view(&self) -> Order {
        match self {
            RetryAction::Spawn(invocation) => Order::Spawn(invocation@),
            RetryAction::Show(display) => Order::Show(display@),
            RetryAction::Prompt { unrecoverable, options } => Order::Prompt {
                unrecoverable: unrecoverable.deep_view(),
                options: options.deep_view(),
            },
            RetryAction::Continue => Order::Continue,
            RetryAction::Finish { unrecoverable } => Order::Finish {
                unrecoverable: unrecoverable.deep_view(),
            },
            RetryAction::Abort(error) => Order::Abort(*error),
        }
    }
}

/// Takes the first run out of `runs`.
fn take_first(runs: Vec<Invocation>) -> (r: (Invocation, Vec<Invocation>))
    requires
        runs.len() > 0,
    ensures
        r.0@ == runs.deep_view()[0],
        r.1.deep_view() == runs.deep_view().drop_first(),
{
    let mut rest = runs;
    let first = rest.remove(0);
    assert(rest.deep_view() =~= runs.deep_view().drop_first());
    (first, rest)
}

/// Starts the retry loop with the run of the main download.
pub fn start(first: Invocation) -> (r: (RetryState, RetryAction))
    ensures
        r.0@ == (Phase::Running { pending: Seq::empty(), errors: Seq::empty() }),
        r.1@ == Order::Spawn(first@),
{
    let pending: Vec<Invocation> = Vec::new();
    let errors: Vec<YtdlpError> = Vec::new();
    assert(pending.deep_view() =~= Seq::<Command>::empty());
    assert(errors.deep_view() =~= Seq::<ErrorRecord>::empty());
    (RetryState::Running { pending, errors }, RetryAction::Spawn(first))
}

/// Decides what follows when the run under way has ended.
fn finish_run(settings: &RetrySettings, pending: Vec<Invocation>, errors: Vec<YtdlpError>) -> (r: (
    RetryState,
    RetryAction,
))
    ensures
        (r.0@, r.1@) == after_exit(settings@, pending.deep_view(), errors.deep_view()),
{
    if pending.len() > 0 {
        let (first, rest) = take_first(pending);
        (RetryState::Running { pending: rest, errors }, RetryAction::Spawn(first))
    } else {
        let (candidates, unrecoverable) = partition_errors(&errors, &settings.table);
        if candidates.len() == 0 {
            (RetryState::Done, RetryAction::Finish { unrecoverable })
        } else {
            let options = list_retry_options(&candidates);
            (
                RetryState::AwaitingSelection { candidates },
                RetryAction::Prompt { unrecoverable, options },
            )
        }
    }
}

/// Decides what follows when the runs for `chosen` are built.
fn finish_rebuild(settings: &RetrySettings, chosen: Vec<YtdlpError>) -> (r: (
    RetryState,
    RetryAction,
))
    ensures
        (r.0@, r.1@) == after_rebuild(settings@, chosen.deep_view()),
{
    if chosen.len() == 0 {
        let unrecoverable: Vec<YtdlpError> = Vec::new();
        assert(unrecoverable.deep_view() =~= Seq::<ErrorRecord>::empty());
        return (RetryState::Done, RetryAction::Finish { unrecoverable });
    }
    match rebuild_invocations(&settings.config, &chosen, settings.style) {
        Ok(runs) => {
            assert(runs.deep_view().len() == chosen.deep_view().len());
            let (first, rest) = take_first(runs);
            let errors: Vec<YtdlpError> = Vec::new();
            assert(errors.deep_view() =~= Seq::<ErrorRecord>::empty());
            (RetryState::Running { pending: rest, errors }, RetryAction::Spawn(first))
        },
        Err(error) => (RetryState::Done, RetryAction::Abort(error)),
    }
}

/// Makes one step of the retry loop: from the state and what happened to the
/// next state and what is to be done.
pub fn step(settings: &RetrySettings, state: RetryState, event: RetryEvent) -> (r: (
    RetryState,
    RetryAction,
))
    ensures
        (r.0@, r.1@) == next(settings@, state@, event@),
{
    match state {
        RetryState::Running { pending, errors } => match event {
            RetryEvent::Line(line) => {
                let ghost before = errors.deep_view();
                let mut errors = errors;
                let seen = observe_line(line.as_str(), settings.verbosity);
                match seen.error {
                    Some(error) => {
                        errors.push(error);
                        assert(errors.deep_view() =~= before.push(error@));
                    },
                    None => {},
                }
                (RetryState::Running { pending, errors }, RetryAction::Show(seen.display))
            },
            RetryEvent::Garbled => (
                RetryState::Running { pending, errors },
                RetryAction::Show(observe_undecodable(settings.verbosity)),
            ),
            RetryEvent::Exited => finish_run(settings, pending, errors),
            RetryEvent::SpawnFailed(reason) => (
                RetryState::Done,
                RetryAction::Abort(BlobdlError::IoError(reason)),
            ),
            _ => (RetryState::Done, RetryAction::Abort(BlobdlError::UnknownIssue)),
        },
        RetryState::AwaitingSelection { candidates } => match event {
            RetryEvent::Selected(selection) => (
                RetryState::Rebuilding { chosen: select_errors(&candidates, &selection) },
                RetryAction::Continue,
            ),
            _ => (RetryState::Done, RetryAction::Abort(BlobdlError::UnknownIssue)),
        },
        RetryState::Rebuilding { chosen } => match event {
            RetryEvent::Proceed => finish_rebuild(settings, chosen),
            _ => (RetryState::Done, RetryAction::Abort(BlobdlError::UnknownIssue)),
        },
        RetryState::Done => {
            let unrecoverable: Vec<YtdlpError> = Vec::new();
            assert(unrecoverable.deep_view() =~= Seq::<ErrorRecord>::empty());
            (RetryState::Done, RetryAction::Finish { unrecoverable })
        },
    }
}

} // verus!
