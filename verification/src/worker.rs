//! The worker of one test folder: a state machine that is driven by the
//! results of the file-system work and of the image comparison.

use crate::outcome::{
    missing_baseline_record, mismatch_record, passed_record, Diff, DiffView,
};
use crate::paths::{
    baseline_copy, baseline_copy_of, baseline_path, baseline_path_of, diff_folder, diff_folder_of,
    diff_image, diff_image_of, file_name, file_stem, final_component, images_pattern, joined,
    latest_copy, latest_copy_of, stem_component,
};
use crate::table::{put, Table};
use vstd::prelude::*;

verus! {

/// A latest image matched to its baseline, with every path that its case can
/// need.
#[derive(Debug)]
pub struct ImageCase {
    /// Key of the case: the image's file name without its extension.
    pub stem: String,
    /// The latest image as it was found.
    pub latest_image: String,
    /// Where its baseline is expected.
    pub baseline_image: String,
    /// The folder of the diagnostic tree that takes its artifacts.
    pub diff_folder: String,
    /// Where the latest image is copied to if the case fails.
    pub latest_copy: String,
    /// Where the baseline image is copied to if the images differ.
    pub baseline_copy: String,
    /// Where the comparison writes the diff visualization.
    pub diff_image: String,
}

/// Key of the case of a latest image: the stem of its file name.
pub open spec fn case_key(latest_image: Seq<char>) -> Option<Seq<char>> {
    match final_component(latest_image) {
        Some(name) => stem_component(name),
        None => None,
    }
}

impl ImageCase {
    /// The case has the stem `stem` and the paths that belong to the image
    /// `latest_image`, named `image_name`, of the test folder `test`.
    pub open spec fn has_paths(
        &self,
        test: Seq<char>,
        latest_image: Seq<char>,
        image_name: Seq<char>,
        stem: Seq<char>,
    ) -> bool {
        &&& self.stem@ == stem
        &&& self.latest_image@ == latest_image
        &&& self.baseline_image@ == baseline_path_of(test, image_name)
        &&& self.diff_folder@ == diff_folder_of(test)
        &&& self.latest_copy@ == latest_copy_of(test, stem)
        &&& self.baseline_copy@ == baseline_copy_of(test, stem)
        &&& self.diff_image@ == diff_image_of(test, stem)
    }

    /// The case is the one of `latest_image` in the test folder `test`.
    pub open spec fn describes(&self, test: Seq<char>, latest_image: Seq<char>) -> bool {
        &&& final_component(latest_image) is Some
        &&& case_key(latest_image) is Some
        &&& self.has_paths(
            test,
            latest_image,
            final_component(latest_image).unwrap(),
            case_key(latest_image).unwrap(),
        )
    }

    /// The case of the image `latest_image` of the test folder `test`, given
    /// the image's file name and its stem.
    pub fn of(test: &str, latest_image: &str, image_name: &str, stem: &str) -> (r: ImageCase)
        ensures
            r.has_paths(test@, latest_image@, image_name@, stem@),
    {
        ImageCase {
            stem: stem.to_owned(),
            latest_image: latest_image.to_owned(),
            baseline_image: baseline_path(test, image_name),
            diff_folder: diff_folder(test),
            latest_copy: latest_copy(test, stem),
            baseline_copy: baseline_copy(test, stem),
            diff_image: diff_image(test, stem),
        }
    }
}

/// Matches a latest image of the test folder `test` to its baseline by name.
/// Whether the baseline exists plays no part. `None` where the path yields no
/// file name with a stem.
pub fn match_image(test: &str, latest_image: &str) -> (r: Option<ImageCase>)
    ensures
        r is Some <==> case_key(latest_image@) is Some,
        r is Some ==> r.unwrap().describes(test@, latest_image@),
{
    let image_name = match file_name(latest_image) {
        Some(name) => name,
        None => {
            return None;
        },
    };
    match file_stem(image_name) {
        Some(stem) => Some(ImageCase::of(test, latest_image, image_name, stem)),
        None => None,
    }
}

/// What the worker is waiting for.
#[derive(Debug)]
pub enum Phase {
    /// The next latest image, or the end of the listing.
    Matching,
    /// Whether the baseline of the case exists.
    Probing(ImageCase),
    /// The result of comparing the case's two images.
    Comparing(ImageCase),
    /// The artifacts of the case; the record is entered once they are written.
    Writing(ImageCase, Diff),
    /// Nothing: every image of the folder has its record.
    Done,
    /// Nothing: the folder was given up.
    Aborted,
}

/// What happened outside since the last action.
#[derive(Debug)]
pub enum Event {
    /// The listing gave this latest image.
    Image(String),
    /// The listing is at its end.
    NoMoreImages,
    /// The artifact folder is there; the flag says whether the baseline is.
    Baseline(bool),
    /// The comparison ran: `Some` with its count where the images differ,
    /// `None` where they do not.
    Compared(Option<i32>),
    /// The files that the last action named are written.
    Written,
    /// The last action failed.
    Failed,
}

/// The settings of a comparison that are the same for every image.
#[derive(Debug, Clone, Copy, PartialEq, Eq, Structural)]
pub struct CompareOptions {
    /// Images of different dimensions fail the comparison instead of
    /// counting as a difference.
    pub require_matching_dimensions: bool,
    /// Differences that look like anti-aliasing are let pass.
    pub detect_anti_aliased_pixels: bool,
}

/// The settings of every comparison: dimensions must match, and
/// anti-aliasing gets no special treatment.
pub open spec fn fixed_options() -> CompareOptions {
    CompareOptions { require_matching_dimensions: true, detect_anti_aliased_pixels: false }
}

impl CompareOptions {
    /// The settings of every comparison.
    pub fn fixed() -> (r: CompareOptions)
        ensures
            r == fixed_options(),
    {
        CompareOptions { require_matching_dimensions: true, detect_anti_aliased_pixels: false }
    }
}

/// What the caller is to do next.
#[derive(Debug)]
pub enum Action {
    /// List the files that match `pattern` and report the first.
    ListImages { pattern: String },
    /// Report the next latest image.
    NextImage,
    /// Create `folder` if it is absent, then report whether `baseline` exists.
    Probe { folder: String, baseline: String },
    /// Compare `baseline` with `latest` under `options`; where they differ,
    /// a diff visualization goes to `output`.
    Compare { baseline: String, latest: String, output: String, options: CompareOptions },
    /// Copy the latest image.
    CopyLatest { from: String, to: String },
    /// Copy the latest image, then the baseline image.
    CopyBoth { latest_from: String, latest_to: String, baseline_from: String, baseline_to: String },
    /// Take the results: the folder is done.
    Finish,
    /// Give the run up.
    Abort,
}

/// The state of one test folder's worker.
#[derive(Debug)]
pub struct Worker {
    /// Name of the test folder.
    pub test_name: String,
    /// The records entered so far, by stem.
    pub results: Table<Diff>,
    pub phase: Phase,
}

/// The record is one that the case `stem` of the test folder `test` can
/// have: passed, without a baseline, or differing, each with the artifacts
/// of that case under their fixed names.
pub open spec fn is_record_of(record: DiffView, test: Seq<char>, stem: Seq<char>) -> bool {
    ||| record == passed_record()
    ||| record == missing_baseline_record(latest_copy_of(test, stem))
    ||| record == mismatch_record(
        latest_copy_of(test, stem),
        baseline_copy_of(test, stem),
        diff_image_of(test, stem),
    )
}

/// Every record of `results` is one that its case in `test` can have.
pub open spec fn records_of(results: Table<Diff>, test: Seq<char>) -> bool {
    forall|stem: Seq<char>| #[trigger]
        results.as_map().contains_key(stem) ==> is_record_of(
            results.as_map()[stem]@,
            test,
            stem,
        )
}

impl Worker {
    /// What holds of a worker in every state that it reaches from its
    /// start: the case in hand belongs to the worker's test folder, a record
    /// that waits for its artifacts is the one of that case, and so is every
    /// record entered.
    pub open spec fn consistent(self) -> bool {
        &&& records_of(self.results, self.test_name@)
        &&& match self.phase {
            Phase::Probing(case) | Phase::Comparing(case) => case.describes(
                self.test_name@,
                case.latest_image@,
            ),
            Phase::Writing(case, record) => {
                &&& case.describes(self.test_name@, case.latest_image@)
                &&& !record.passed
                &&& is_record_of(record@, self.test_name@, case.stem@)
            },
            _ => true,
        }
    }

    /// The worker gives the folder up.
    pub open spec fn gives_up(self, next: Worker, action: Action) -> bool {
        &&& next.test_name == self.test_name
        &&& next.results == self.results
        &&& next.phase is Aborted
        &&& action is Abort
    }

    /// The worker enters `record` for `case` and asks for the next image.
    pub open spec fn enters(self, case: ImageCase, record: Diff, next: Worker, action: Action) -> bool {
        &&& next.test_name == self.test_name
        &&& put(self.results@, case.stem@, record, next.results@)
        &&& next.results.as_map() == self.results.as_map().insert(case.stem@, record)
        &&& next.phase is Matching
        &&& action is NextImage
    }

    /// The transition relation: on `event` the worker becomes `next` and
    /// asks for `action`.
    pub open spec fn steps_to(self, event: Event, next: Worker, action: Action) -> bool {
        match (self.phase, event) {
            (Phase::Matching, Event::Image(path)) => {
                if case_key(path@) is Some {
                    &&& next.test_name == self.test_name
                    &&& next.results == self.results
                    &&& next.phase matches Phase::Probing(case)
                    &&& case.describes(self.test_name@, path@)
                    &&& action matches Action::Probe { folder, baseline }
                    &&& folder@ == case.diff_folder@
                    &&& baseline@ == case.baseline_image@
                } else {
                    self.gives_up(next, action)
                }
            },
            (Phase::Matching, Event::NoMoreImages) => {
                &&& next.test_name == self.test_name
                &&& next.results == self.results
                &&& next.phase is Done
                &&& action is Finish
            },
            (Phase::Probing(case), Event::Baseline(true)) => {
                &&& next.test_name == self.test_name
                &&& next.results == self.results
                &&& next.phase == Phase::Comparing(case)
                &&& action matches Action::Compare { baseline, latest, output, options }
                &&& baseline@ == case.baseline_image@
                &&& latest@ == case.latest_image@
                &&& output@ == case.diff_image@
                &&& options == fixed_options()
            },
            (Phase::Probing(case), Event::Baseline(false)) => {
                &&& next.test_name == self.test_name
                &&& next.results == self.results
                &&& next.phase matches Phase::Writing(same, record)
                &&& same == case
                &&& record@ == missing_baseline_record(case.latest_copy@)
                &&& action matches Action::CopyLatest { from, to }
                &&& from@ == case.latest_image@
                &&& to@ == case.latest_copy@
            },
            (Phase::Comparing(case), Event::Compared(None)) => {
                exists|record: Diff|
                    record@ == passed_record() && #[trigger] self.enters(
                        case,
                        record,
                        next,
                        action,
                    )
            },
            (Phase::Comparing(case), Event::Compared(Some(_))) => {
                &&& next.test_name == self.test_name
                &&& next.results == self.results
                &&& next.phase matches Phase::Writing(same, record)
                &&& same == case
                &&& record@ == mismatch_record(
                    case.latest_copy@,
                    case.baseline_copy@,
                    case.diff_image@,
                )
                &&& action matches Action::CopyBoth {
                    latest_from,
                    latest_to,
                    baseline_from,
                    baseline_to,
                }
                &&& latest_from@ == case.latest_image@
                &&& latest_to@ == case.latest_copy@
                &&& baseline_from@ == case.baseline_image@
                &&& baseline_to@ == case.baseline_copy@
            },
            (Phase::Writing(case, record), Event::Written) => self.enters(
                case,
                record,
                next,
                action,
            ),
            _ => self.gives_up(next, action),
        }
    }

    /// The worker of `latest_test_folder` before its first event: it asks
    /// for the folder's images, or gives up where the folder has no name.
    pub fn start(latest_test_folder: &str) -> (r: (Worker, Action))
        ensures
            r.0.results@.len() == 0,
            r.0.consistent(),
            match final_component(latest_test_folder@) {
                Some(name) => {
                    &&& r.0.test_name@ == name
                    &&& r.0.phase is Matching
                    &&& r.1 matches Action::ListImages { pattern }
                    &&& pattern@ == joined(latest_test_folder@, "*.png"@)
                },
                None => r.0.phase is Aborted && r.1 is Abort,
            },
    {
        match file_name(latest_test_folder) {
            Some(name) => (
                Worker { test_name: name.to_owned(), results: Table::new(), phase: Phase::Matching },
                Action::ListImages { pattern: images_pattern(latest_test_folder) },
            ),
            None => (
                Worker { test_name: String::new(), results: Table::new(), phase: Phase::Aborted },
                Action::Abort,
            ),
        }
    }

    /// One transition: takes what happened outside and says what to do next.
    /// An event that the phase does not wait for, a failure among them,
    /// makes the worker give the folder up.
    pub fn step(self, event: Event) -> (r: (Worker, Action))
        ensures
            self.steps_to(event, r.0, r.1),
    {
        let Worker { test_name, results, phase } = self;
        match (phase, event) {
            (Phase::Matching, Event::Image(path)) => {
                match match_image(test_name.as_str(), path.as_str()) {
                    Some(case) => {
                        let action = Action::Probe {
                            folder: case.diff_folder.clone(),
                            baseline: case.baseline_image.clone(),
                        };
                        (Worker { test_name, results, phase: Phase::Probing(case) }, action)
                    },
                    None => (Worker { test_name, results, phase: Phase::Aborted }, Action::Abort),
                }
            },
            (Phase::Matching, Event::NoMoreImages) => (
                Worker { test_name, results, phase: Phase::Done },
                Action::Finish,
            ),
            (Phase::Probing(case), Event::Baseline(true)) => {
                let action = Action::Compare {
                    baseline: case.baseline_image.clone(),
                    latest: case.latest_image.clone(),
                    output: case.diff_image.clone(),
                    options: CompareOptions::fixed(),
                };
                (Worker { test_name, results, phase: Phase::Comparing(case) }, action)
            },
            (Phase::Probing(case), Event::Baseline(false)) => {
                let action = Action::CopyLatest {
                    from: case.latest_image.clone(),
                    to: case.latest_copy.clone(),
                };
                let record = Diff::missing_baseline(case.latest_copy.clone());
                (Worker { test_name, results, phase: Phase::Writing(case, record) }, action)
            },
            (Phase::Comparing(case), Event::Compared(None)) => {
                let record = Diff::passed();
                let next = Worker {
                    test_name,
                    results: results.insert(case.stem.clone(), record),
                    phase: Phase::Matching,
                };
                assert(self.enters(case, record, next, Action::NextImage));
                (next, Action::NextImage)
            },
            (Phase::Comparing(case), Event::Compared(Some(_))) => {
                let action = Action::CopyBoth {
                    latest_from: case.latest_image.clone(),
                    latest_to: case.latest_copy.clone(),
                    baseline_from: case.baseline_image.clone(),
                    baseline_to: case.baseline_copy.clone(),
                };
                let record = Diff::mismatch(
                    case.latest_copy.clone(),
                    case.baseline_copy.clone(),
                    case.diff_image.clone(),
                );
                (Worker { test_name, results, phase: Phase::Writing(case, record) }, action)
            },
            (Phase::Writing(case, record), Event::Written) => {
                let next = Worker {
                    test_name,
                    results: results.insert(case.stem.clone(), record),
                    phase: Phase::Matching,
                };
                (next, Action::NextImage)
            },
            (_, _) => (Worker { test_name, results, phase: Phase::Aborted }, Action::Abort),
        }
    }
}

} // verus!
