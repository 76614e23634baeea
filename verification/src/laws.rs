//! What holds of every run of a worker.

use crate::outcome::{missing_baseline_record, mismatch_record, passed_record};
use crate::paths::{
    baseline_copy_of, baseline_path_of, diff_folder_of, diff_image_of, final_component,
    latest_copy_of,
};
use crate::outcome::Diff;
use crate::report::{cases_in, passed_cases_in};
use crate::run::{Run, RunAction, RunEvent, RunPhase};
use crate::table::{unique_names, Table};
use crate::worker::{
    case_key, fixed_options, records_of, Action, Event, ImageCase, Phase, Worker,
};
use vstd::prelude::*;

verus! {

/// A latest image whose baseline is absent is never compared: its latest
/// image is copied to `Diff/<test>/<stem>_latest.png`, and once that is
/// written the case is recorded as failed with that copy and nothing else.
pub proof fn law_missing_baseline(
    w0: Worker,
    image: String,
    w1: Worker,
    a1: Action,
    w2: Worker,
    a2: Action,
    w3: Worker,
    a3: Action,
)
    requires
        w0.phase is Matching,
        case_key(image@) is Some,
        w0.steps_to(Event::Image(image), w1, a1),
        w1.steps_to(Event::Baseline(false), w2, a2),
        w2.steps_to(Event::Written, w3, a3),
    ensures
        a1 matches Action::Probe { folder, baseline } && folder@ == diff_folder_of(w0.test_name@)
            && baseline@ == baseline_path_of(w0.test_name@, final_component(image@).unwrap()),
        a2 matches Action::CopyLatest { from, to } && from@ == image@ && to@ == latest_copy_of(
            w0.test_name@,
            case_key(image@).unwrap(),
        ),
        a3 is NextImage,
        w3.phase is Matching,
        w3.results.as_map().contains_key(case_key(image@).unwrap()),
        w3.results.as_map()[case_key(image@).unwrap()]@ == missing_baseline_record(
            latest_copy_of(w0.test_name@, case_key(image@).unwrap()),
        ),
{
}

/// A latest image that does not differ from its baseline is recorded as
/// passed, and no action of its case copies a file.
pub proof fn law_no_difference(
    w0: Worker,
    image: String,
    w1: Worker,
    a1: Action,
    w2: Worker,
    a2: Action,
    w3: Worker,
    a3: Action,
)
    requires
        w0.phase is Matching,
        case_key(image@) is Some,
        w0.steps_to(Event::Image(image), w1, a1),
        w1.steps_to(Event::Baseline(true), w2, a2),
        w2.steps_to(Event::Compared(None), w3, a3),
    ensures
        a1 is Probe,
        a2 matches Action::Compare { baseline, latest, output, options } && baseline@ == baseline_path_of(
            w0.test_name@,
            final_component(image@).unwrap(),
        ) && latest@ == image@ && output@ == diff_image_of(
            w0.test_name@,
            case_key(image@).unwrap(),
        ) && options == fixed_options(),
        a3 is NextImage,
        w3.phase is Matching,
        w3.results.as_map().contains_key(case_key(image@).unwrap()),
        w3.results.as_map()[case_key(image@).unwrap()]@ == passed_record(),
{
}

/// A latest image that differs from its baseline is recorded as failed with
/// all three artifacts: the diff visualization that the comparison was told
/// to write, and the copies of the latest and the baseline image, which are
/// made before the record is entered.
pub proof fn law_difference(
    w0: Worker,
    image: String,
    count: i32,
    w1: Worker,
    a1: Action,
    w2: Worker,
    a2: Action,
    w3: Worker,
    a3: Action,
    w4: Worker,
    a4: Action,
)
    requires
        w0.phase is Matching,
        case_key(image@) is Some,
        w0.steps_to(Event::Image(image), w1, a1),
        w1.steps_to(Event::Baseline(true), w2, a2),
        w2.steps_to(Event::Compared(Some(count)), w3, a3),
        w3.steps_to(Event::Written, w4, a4),
    ensures
        a2 matches Action::Compare { baseline, latest, output, options } && baseline@ == baseline_path_of(
            w0.test_name@,
            final_component(image@).unwrap(),
        ) && latest@ == image@ && output@ == diff_image_of(
            w0.test_name@,
            case_key(image@).unwrap(),
        ) && options == fixed_options(),
        a3 matches Action::CopyBoth { latest_from, latest_to, baseline_from, baseline_to }
            && latest_from@ == image@ && latest_to@ == latest_copy_of(
            w0.test_name@,
            case_key(image@).unwrap(),
        ) && baseline_from@ == baseline_path_of(w0.test_name@, final_component(image@).unwrap())
            && baseline_to@ == baseline_copy_of(w0.test_name@, case_key(image@).unwrap()),
        a4 is NextImage,
        w4.phase is Matching,
        w4.results.as_map().contains_key(case_key(image@).unwrap()),
        w4.results.as_map()[case_key(image@).unwrap()]@ == mismatch_record(
            latest_copy_of(w0.test_name@, case_key(image@).unwrap()),
            baseline_copy_of(w0.test_name@, case_key(image@).unwrap()),
            diff_image_of(w0.test_name@, case_key(image@).unwrap()),
        ),
{
}

/// A case whose artifacts were not written is not recorded: whatever comes
/// in place of the confirmation, the worker gives the folder up with the
/// records it had.
pub proof fn law_no_record_without_artifacts(w: Worker, event: Event, next: Worker, action: Action)
    requires
        w.phase is Writing,
        !(event is Written),
        w.steps_to(event, next, action),
    ensures
        next.results == w.results,
        next.phase is Aborted,
        action is Abort,
{
}

/// A failure gives the folder up in every phase, and a worker that has given
/// up or is done never takes up work again.
pub proof fn law_fail_fast(w: Worker, event: Event, next: Worker, action: Action)
    requires
        event is Failed || w.phase is Aborted || w.phase is Done,
        w.steps_to(event, next, action),
    ensures
        next.results == w.results,
        next.phase is Aborted,
        action is Abort,
{
}

/// The records of a worker only change when a case is entered: every other
/// transition keeps them, and an entered case is the only name that is new.
pub proof fn law_records_only_grow(w: Worker, event: Event, next: Worker, action: Action)
    requires
        w.steps_to(event, next, action),
    ensures
        forall|stem: Seq<char>| #[trigger]
            w.results.as_map().contains_key(stem) ==> next.results.as_map().contains_key(stem),
        !(action is NextImage) ==> next.results == w.results,
{
}

/// Consistency is kept by every transition, whatever the event.
pub proof fn law_consistency_is_kept(w: Worker, event: Event, next: Worker, action: Action)
    requires
        w.consistent(),
        w.steps_to(event, next, action),
    ensures
        next.consistent(),
{
}

/// Every file that an action of a consistent worker writes lies in the
/// worker's own folder of the diagnostic tree, and the record that waits for
/// a copy names it: no file is written that the report will not account for.
pub proof fn law_copies_are_accounted_for(w: Worker, event: Event, next: Worker, action: Action)
    requires
        w.consistent(),
        w.steps_to(event, next, action),
    ensures
        action matches Action::CopyLatest { from, to } ==> next.phase matches Phase::Writing(
            case,
            record,
        ) && to@ == latest_copy_of(w.test_name@, case.stem@) && record@.failed_image == Some(to@),
        action matches Action::CopyBoth { latest_from, latest_to, baseline_from, baseline_to }
            ==> next.phase matches Phase::Writing(case, record) && latest_to@ == latest_copy_of(
            w.test_name@,
            case.stem@,
        ) && baseline_to@ == baseline_copy_of(w.test_name@, case.stem@) && record@.failed_image
            == Some(latest_to@) && record@.baseline_image == Some(baseline_to@),
        action matches Action::Compare { baseline, latest, output, options } ==> next.phase matches Phase::Comparing(
            case,
        ) && output@ == diff_image_of(w.test_name@, case.stem@),
        action matches Action::Probe { folder, baseline } ==> folder@ == diff_folder_of(
            w.test_name@,
        ),
{
}

/// The two cases have the same paths.
pub open spec fn same_case(a: ImageCase, b: ImageCase) -> bool {
    &&& a.stem@ == b.stem@
    &&& a.latest_image@ == b.latest_image@
    &&& a.baseline_image@ == b.baseline_image@
    &&& a.diff_folder@ == b.diff_folder@
    &&& a.latest_copy@ == b.latest_copy@
    &&& a.baseline_copy@ == b.baseline_copy@
    &&& a.diff_image@ == b.diff_image@
}

/// The two tables hold the same stems with the same records.
pub open spec fn same_records(a: Table<Diff>, b: Table<Diff>) -> bool {
    forall|stem: Seq<char>|
        {
            &&& #[trigger] a.as_map().contains_key(stem) == b.as_map().contains_key(stem)
            &&& a.as_map().contains_key(stem) ==> a.as_map()[stem]@ == b.as_map()[stem]@
        }
}

/// The two phases wait for the same thing, with the same case in hand.
pub open spec fn same_phase(a: Phase, b: Phase) -> bool {
    match (a, b) {
        (Phase::Matching, Phase::Matching) => true,
        (Phase::Probing(x), Phase::Probing(y)) => same_case(x, y),
        (Phase::Comparing(x), Phase::Comparing(y)) => same_case(x, y),
        (Phase::Writing(x, p), Phase::Writing(y, q)) => same_case(x, y) && p@ == q@,
        (Phase::Done, Phase::Done) => true,
        (Phase::Aborted, Phase::Aborted) => true,
        _ => false,
    }
}

/// The two workers are in the same state: same test folder, same records,
/// same phase.
pub open spec fn same_state(a: Worker, b: Worker) -> bool {
    &&& a.test_name@ == b.test_name@
    &&& same_records(a.results, b.results)
    &&& same_phase(a.phase, b.phase)
}

/// The two events report the same thing. Only whether the images differ
/// counts of a comparison, not by how much.
pub open spec fn same_event(a: Event, b: Event) -> bool {
    match (a, b) {
        (Event::Image(p), Event::Image(q)) => p@ == q@,
        (Event::NoMoreImages, Event::NoMoreImages) => true,
        (Event::Baseline(x), Event::Baseline(y)) => x == y,
        (Event::Compared(x), Event::Compared(y)) => (x is Some) == (y is Some),
        (Event::Written, Event::Written) => true,
        (Event::Failed, Event::Failed) => true,
        _ => false,
    }
}

/// The two actions ask for the same thing on the same paths.
pub open spec fn same_action(a: Action, b: Action) -> bool {
    match (a, b) {
        (Action::ListImages { pattern: p }, Action::ListImages { pattern: q }) => p@ == q@,
        (Action::NextImage, Action::NextImage) => true,
        (
            Action::Probe { folder: f, baseline: p },
            Action::Probe { folder: g, baseline: q },
        ) => f@ == g@ && p@ == q@,
        (
            Action::Compare { baseline: b1, latest: l1, output: o1, options: s1 },
            Action::Compare { baseline: b2, latest: l2, output: o2, options: s2 },
        ) => b1@ == b2@ && l1@ == l2@ && o1@ == o2@ && s1 == s2,
        (Action::CopyLatest { from: f1, to: t1 }, Action::CopyLatest { from: f2, to: t2 }) => f1@
            == f2@ && t1@ == t2@,
        (
            Action::CopyBoth {
                latest_from: lf1,
                latest_to: lt1,
                baseline_from: bf1,
                baseline_to: bt1,
            },
            Action::CopyBoth {
                latest_from: lf2,
                latest_to: lt2,
                baseline_from: bf2,
                baseline_to: bt2,
            },
        ) => lf1@ == lf2@ && lt1@ == lt2@ && bf1@ == bf2@ && bt1@ == bt2@,
        (Action::Finish, Action::Finish) => true,
        (Action::Abort, Action::Abort) => true,
        _ => false,
    }
}

/// A transition is determined by the state and the event: two workers in
/// the same state that are told the same thing ask for the same action and
/// are in the same state afterwards. A folder that is worked through twice
/// with the same outside results so gets the same records and the same
/// files.
pub proof fn law_same_events_same_results(
    w: Worker,
    v: Worker,
    e: Event,
    f: Event,
    w1: Worker,
    a1: Action,
    v1: Worker,
    b1: Action,
)
    requires
        same_state(w, v),
        same_event(e, f),
        w.steps_to(e, w1, a1),
        v.steps_to(f, v1, b1),
    ensures
        same_state(w1, v1),
        same_action(a1, b1),
{
}

/// A run keeps its consistency when the workers handed in are consistent.
pub proof fn law_run_consistency_is_kept(run: Run, event: RunEvent, next: Run, action: RunAction)
    requires
        run.consistent(),
        event matches RunEvent::Folder(worker) ==> worker.consistent(),
        run.steps_to(event, next, action),
    ensures
        next.consistent(),
{
}

/// Nothing is gathered before the old diagnostic tree is out of the way: a
/// run that waits for the removal takes the news of it, or fails.
pub proof fn law_reset_comes_first(run: Run, event: RunEvent, next: Run, action: RunAction)
    requires
        run.phase == RunPhase::Resetting,
        run.steps_to(event, next, action),
    ensures
        next.report == run.report,
        event is TreeRemoved || event is TreeAbsent ==> next.phase == RunPhase::Collecting
            && action is RunWorkers,
        !(event is TreeRemoved || event is TreeAbsent) ==> next.phase == RunPhase::Failed
            && action is Abort,
{
}

/// The counts that a run publishes are those of its report: the total is
/// the number of cases over all test folders, the passed count the number of
/// those whose pass flag is set, and it never exceeds the total.
pub proof fn law_published_counts(run: Run, event: RunEvent, next: Run, action: RunAction)
    requires
        run.steps_to(event, next, action),
        action is Publish,
    ensures
        next.phase == RunPhase::Finished,
        next.report == run.report,
        action->summary.total == cases_in(next.report@),
        action->summary.passed == passed_cases_in(next.report@),
        action->summary.passed <= action->summary.total,
{
    crate::report::lemma_passed_at_most_total(run.report@);
}

/// A worker that is not done when it is handed in fails the run, and the
/// report takes nothing from it.
pub proof fn law_unfinished_worker_fails_the_run(
    run: Run,
    worker: Worker,
    next: Run,
    action: RunAction,
)
    requires
        !(worker.phase is Done),
        run.steps_to(RunEvent::Folder(worker), next, action),
    ensures
        next.report == run.report,
        next.phase == RunPhase::Failed,
        action is Abort,
{
}

/// A transition of a run is determined by the state and the event: the
/// report that comes of it, the phase and the action are the same however
/// often the transition is made.
pub proof fn law_run_is_determined(
    run: Run,
    event: RunEvent,
    one: Run,
    first: RunAction,
    other: Run,
    second: RunAction,
)
    requires
        unique_names(run.report@),
        run.steps_to(event, one, first),
        run.steps_to(event, other, second),
    ensures
        one.report@ == other.report@,
        one.phase == other.phase,
        first is Publish ==> second is Publish && first->summary == second->summary,
        first is RunWorkers ==> second is RunWorkers && first->pattern@ == second->pattern@,
        first is NextFolder ==> second is NextFolder,
        first is Abort ==> second is Abort,
{
}

} // verus!
