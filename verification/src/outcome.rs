//! The outcome record of one image case.

use vstd::prelude::*;

verus! {

/// What the report holds for one image case: the pass flag and, for a failed
/// case, the artifacts that were kept for inspection.
#[derive(Debug)]
pub struct Diff {
    pub passed: bool,
    pub failed_image: Option<String>,
    pub baseline_image: Option<String>,
    pub diff_image: Option<String>,
}

/// A `Diff` with each path as its characters.
pub struct DiffView {
    pub passed: bool,
    pub failed_image: Option<Seq<char>>,
    pub baseline_image: Option<Seq<char>>,
    pub diff_image: Option<Seq<char>>,
}

/// The characters of an optional path.
pub open spec fn text_of(path: Option<String>) -> Option<Seq<char>> {
    match path {
        Some(p) => Some(p@),
        None => None,
    }
}

/// The record of a case whose latest image matches its baseline.
pub open spec fn passed_record() -> DiffView {
    DiffView { passed: true, failed_image: None, baseline_image: None, diff_image: None }
}

/// The record of a case without a baseline; `latest_copy` is where the latest
/// image was copied to.
pub open spec fn missing_baseline_record(latest_copy: Seq<char>) -> DiffView {
    DiffView {
        passed: false,
        failed_image: Some(latest_copy),
        baseline_image: None,
        diff_image: None,
    }
}

/// The record of a case whose latest image differs from its baseline.
pub open spec fn mismatch_record(
    latest_copy: Seq<char>,
    baseline_copy: Seq<char>,
    diff_image: Seq<char>,
) -> DiffView {
    DiffView {
        passed: false,
        failed_image: Some(latest_copy),
        baseline_image: Some(baseline_copy),
        diff_image: Some(diff_image),
    }
}

/// The three states of a case.
#[derive(Debug, Clone, Copy, PartialEq, Eq, Structural)]
pub enum Outcome {
    Passed,
    FailedMissingBaseline,
    FailedMismatch,
}

impl DiffView {
    /// The record is in one of the three states of a case: a passed record
    /// names no file, a failed one names the copy of the latest image, and
    /// the baseline copy and the diff image come together or not at all.
    pub open spec fn well_formed(self) -> bool {
        &&& self.passed ==> self.failed_image is None && self.baseline_image is None
            && self.diff_image is None
        &&& !self.passed ==> self.failed_image is Some
        &&& self.baseline_image is Some <==> self.diff_image is Some
    }

    /// The state that the record stands for.
    pub open spec fn outcome(self) -> Outcome {
        if self.passed {
            Outcome::Passed
        } else if self.diff_image is Some {
            Outcome::FailedMismatch
        } else {
            Outcome::FailedMissingBaseline
        }
    }
}

impl View for Diff {
    type V = DiffView;

    open spec fn view(&self) -> DiffView {
        DiffView {
            passed: self.passed,
            failed_image: text_of(self.failed_image),
            baseline_image: text_of(self.baseline_image),
            diff_image: text_of(self.diff_image),
        }
    }
}

impl Diff {
    /// The record of a passed case.
    pub fn passed() -> (r: Diff)
        ensures
            r@ == passed_record(),
    {
        Diff { passed: true, failed_image: None, baseline_image: None, diff_image: None }
    }

    /// The record of a case without a baseline.
    pub fn missing_baseline(latest_copy: String) -> (r: Diff)
        ensures
            r@ == missing_baseline_record(latest_copy@),
    {
        Diff {
            passed: false,
            failed_image: Some(latest_copy),
            baseline_image: None,
            diff_image: None,
        }
    }

    /// The record of a case that differs from its baseline.
    pub fn mismatch(latest_copy: String, baseline_copy: String, diff_image: String) -> (r: Diff)
        ensures
            r@ == mismatch_record(latest_copy@, baseline_copy@, diff_image@),
    {
        Diff {
            passed: false,
            failed_image: Some(latest_copy),
            baseline_image: Some(baseline_copy),
            diff_image: Some(diff_image),
        }
    }

    /// The state that the record stands for.
    pub fn outcome(&self) -> (r: Outcome)
        ensures
            r == self@.outcome(),
    {
        if self.passed {
            Outcome::Passed
        } else if self.diff_image.is_some() {
            Outcome::FailedMismatch
        } else {
            Outcome::FailedMissingBaseline
        }
    }
}

/// Each constructor's record is in one of the three states, and in the one
/// that its name says.
pub proof fn lemma_records_well_formed(
    latest_copy: Seq<char>,
    baseline_copy: Seq<char>,
    diff_image: Seq<char>,
)
    ensures
        passed_record().well_formed(),
        passed_record().outcome() == Outcome::Passed,
        missing_baseline_record(latest_copy).well_formed(),
        missing_baseline_record(latest_copy).outcome() == Outcome::FailedMissingBaseline,
        mismatch_record(latest_copy, baseline_copy, diff_image).well_formed(),
        mismatch_record(latest_copy, baseline_copy, diff_image).outcome()
            == Outcome::FailedMismatch,
{
}

} // verus!
