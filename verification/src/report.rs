//! The report of a run: the records of every test folder, and their counts.

use crate::outcome::Diff;
use crate::table::{put, Table};
use crate::worker::{Phase, Worker};
use vstd::prelude::*;

verus! {

/// The records of one test folder, by stem.
pub type CaseMap = Table<Diff>;

/// The records of every test folder, by the folder's name.
pub type Report = Table<Table<Diff>>;

/// The pass and total counts of a report.
#[derive(Debug, Clone, Copy, PartialEq, Eq, Structural)]
pub struct Summary {
    pub passed: usize,
    pub total: usize,
}

/// Number of cases in `cases` whose pass flag is set.
pub open spec fn passed_in(cases: Seq<(Seq<char>, Diff)>) -> nat
    decreases cases.len(),
{
    if cases.len() == 0 {
        0
    } else {
        passed_in(cases.drop_last()) + if cases.last().1.passed {
            1nat
        } else {
            0nat
        }
    }
}

/// Number of cases in all the test folders of `report`.
pub open spec fn cases_in(report: Seq<(Seq<char>, Table<Diff>)>) -> nat
    decreases report.len(),
{
    if report.len() == 0 {
        0
    } else {
        cases_in(report.drop_last()) + report.last().1@.len()
    }
}

/// Number of cases in all the test folders of `report` whose pass flag is
/// set.
pub open spec fn passed_cases_in(report: Seq<(Seq<char>, Table<Diff>)>) -> nat
    decreases report.len(),
{
    if report.len() == 0 {
        0
    } else {
        passed_cases_in(report.drop_last()) + passed_in(report.last().1@)
    }
}

/// No more cases pass than there are.
pub proof fn lemma_passed_at_most_len(cases: Seq<(Seq<char>, Diff)>)
    ensures
        passed_in(cases) <= cases.len(),
    decreases cases.len(),
{
    if cases.len() > 0 {
        lemma_passed_at_most_len(cases.drop_last());
    }
}

/// The passed count of a report never exceeds its total count.
pub proof fn lemma_passed_at_most_total(report: Seq<(Seq<char>, Table<Diff>)>)
    ensures
        passed_cases_in(report) <= cases_in(report),
    decreases report.len(),
{
    if report.len() > 0 {
        lemma_passed_at_most_total(report.drop_last());
        lemma_passed_at_most_len(report.last().1@);
    }
}

/// The first folders of a report hold no more cases than the whole report.
pub proof fn lemma_cases_in_prefix(report: Seq<(Seq<char>, Table<Diff>)>, n: int)
    requires
        0 <= n <= report.len(),
    ensures
        cases_in(report.take(n)) <= cases_in(report),
    decreases report.len(),
{
    if n == report.len() {
        assert(report.take(n) =~= report);
    } else {
        lemma_cases_in_prefix(report.drop_last(), n);
        assert(report.drop_last().take(n) =~= report.take(n));
    }
}

/// A folder that is added under a new name adds exactly its own cases to
/// both counts; one that replaces a folder of the same name leaves the
/// number of folders as it was.
pub proof fn lemma_counts_of_new_folder(
    report: Seq<(Seq<char>, Table<Diff>)>,
    name: Seq<char>,
    cases: Table<Diff>,
)
    ensures
        cases_in(report.push((name, cases))) == cases_in(report) + cases@.len(),
        passed_cases_in(report.push((name, cases))) == passed_cases_in(report) + passed_in(
            cases@,
        ),
{
    assert(report.push((name, cases)).drop_last() =~= report);
}

/// A folder that takes the place of another of the same name counts in its
/// stead: the cases of the folder that left are counted no longer.
pub proof fn lemma_counts_of_replaced_folder(
    report: Seq<(Seq<char>, Table<Diff>)>,
    i: int,
    cases: Table<Diff>,
)
    requires
        0 <= i < report.len(),
    ensures
        cases_in(report.update(i, (report[i].0, cases))) + report[i].1@.len() == cases_in(report)
            + cases@.len(),
        passed_cases_in(report.update(i, (report[i].0, cases))) + passed_in(report[i].1@)
            == passed_cases_in(report) + passed_in(cases@),
    decreases report.len(),
{
    let after = report.update(i, (report[i].0, cases));
    if i == report.len() - 1 {
        assert(after.drop_last() =~= report.drop_last());
    } else {
        lemma_counts_of_replaced_folder(report.drop_last(), i, cases);
        assert(after.drop_last() =~= report.drop_last().update(i, (report[i].0, cases)));
    }
}

/// Counts the cases of one test folder that passed.
pub fn count_passed(cases: &Table<Diff>) -> (r: usize)
    ensures
        r == passed_in(cases@),
        r <= cases@.len(),
{
    let n = cases.len();
    let mut count: usize = 0;
    let mut i: usize = 0;
    while i < n
        invariant
            n == cases@.len(),
            i <= n,
            count == passed_in(cases@.take(i as int)),
            count <= i,
        decreases n - i,
    {
        assert(cases@.take(i + 1).drop_last() =~= cases@.take(i as int));
        if cases.value_at(i).passed {
            count += 1;
        }
        i += 1;
    }
    assert(cases@.take(n as int) =~= cases@);
    count
}

/// The counts of a report: how many cases passed, and how many there are,
/// over all test folders. `None` where the total does not fit the machine's
/// word.
pub fn summarize(report: &Table<Table<Diff>>) -> (r: Option<Summary>)
    ensures
        r is Some <==> cases_in(report@) <= usize::MAX,
        r is Some ==> r.unwrap().total == cases_in(report@) && r.unwrap().passed
            == passed_cases_in(report@),
{
    let n = report.len();
    let mut passed: usize = 0;
    let mut total: usize = 0;
    let mut i: usize = 0;
    while i < n
        invariant
            n == report@.len(),
            i <= n,
            total == cases_in(report@.take(i as int)),
            passed == passed_cases_in(report@.take(i as int)),
        decreases n - i,
    {
        let cases = report.value_at(i);
        proof {
            assert(report@.take(i + 1).drop_last() =~= report@.take(i as int));
            lemma_passed_at_most_total(report@.take(i + 1));
            lemma_cases_in_prefix(report@, i + 1);
        }
        match total.checked_add(cases.len()) {
            Some(sum) => {
                total = sum;
            },
            None => {
                return None;
            },
        }
        passed = passed + count_passed(cases);
        i += 1;
    }
    assert(report@.take(n as int) =~= report@);
    Some(Summary { passed, total })
}

/// Enters the results of a finished worker into the report under the name
/// of its test folder. A worker that is not done contributes nothing: the
/// report comes back as it was, as an error.
pub fn collect(report: Table<Table<Diff>>, worker: Worker) -> (r: Result<
    Table<Table<Diff>>,
    Table<Table<Diff>>,
>)
    ensures
        r is Ok <==> worker.phase is Done,
        r is Ok ==> put(report@, worker.test_name@, worker.results, r.unwrap()@),
        r is Ok ==> r.unwrap().as_map() == report.as_map().insert(
            worker.test_name@,
            worker.results,
        ),
        r is Err ==> r.unwrap_err() == report,
{
    let Worker { test_name, results, phase } = worker;
    match phase {
        Phase::Done => Ok(report.insert(test_name, results)),
        _ => Err(report),
    }
}

} // verus!
