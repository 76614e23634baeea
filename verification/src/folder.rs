//! One test folder worked through in one call, from what was observed of
//! each of its latest images.

use crate::outcome::{
    missing_baseline_record, mismatch_record, passed_record, Diff, DiffView,
};
use crate::paths::{baseline_copy_of, diff_image_of, final_component, latest_copy_of};
use crate::table::Table;
use crate::worker::{case_key, Action, Event, Worker};
use vstd::prelude::*;

verus! {

/// What was found out about one latest image.
#[derive(Debug)]
pub struct Observation {
    /// The latest image as the listing gave it.
    pub latest_image: String,
    /// Whether its baseline exists.
    pub baseline_exists: bool,
    /// What the comparison with the baseline gave: `Some` where the images
    /// differ. It plays no part where the baseline is absent.
    pub difference: Option<i32>,
}

/// The record that the case `stem` of the test folder `test` gets.
pub open spec fn record_for(
    test: Seq<char>,
    stem: Seq<char>,
    baseline_exists: bool,
    differs: bool,
) -> DiffView {
    if !baseline_exists {
        missing_baseline_record(latest_copy_of(test, stem))
    } else if differs {
        mismatch_record(
            latest_copy_of(test, stem),
            baseline_copy_of(test, stem),
            diff_image_of(test, stem),
        )
    } else {
        passed_record()
    }
}

/// Every observed image has a file name with a stem.
pub open spec fn all_named(observations: Seq<Observation>) -> bool {
    forall|i: int|
        0 <= i < observations.len() ==> case_key(
            (#[trigger] observations[i]).latest_image@,
        ) is Some
}

/// The records of a test folder, by stem: each observed image has the record
/// of its case; of two images with one stem the later one counts.
pub open spec fn expected_records(test: Seq<char>, observations: Seq<Observation>) -> Map<
    Seq<char>,
    DiffView,
>
    decreases observations.len(),
{
    if observations.len() == 0 {
        Map::empty()
    } else {
        let last = observations.last();
        let stem = case_key(last.latest_image@).unwrap();
        expected_records(test, observations.drop_last()).insert(
            stem,
            record_for(test, stem, last.baseline_exists, last.difference is Some),
        )
    }
}

/// The stems of the records are those of the observed images.
pub proof fn lemma_expected_stems(test: Seq<char>, observations: Seq<Observation>, stem: Seq<char>)
    requires
        all_named(observations),
    ensures
        expected_records(test, observations).contains_key(stem) <==> exists|i: int|
            0 <= i < observations.len() && case_key((#[trigger] observations[i]).latest_image@)
                == Some(stem),
    decreases observations.len(),
{
    if observations.len() > 0 {
        let rest = observations.drop_last();
        assert(all_named(rest)) by {
            assert forall|j: int| 0 <= j < rest.len() implies case_key(
                (#[trigger] rest[j]).latest_image@,
            ) is Some by {
                assert(rest[j] == observations[j]);
            }
        }
        assert(case_key(observations[observations.len() - 1].latest_image@) is Some);
        lemma_expected_stems(test, rest, stem);
        if expected_records(test, observations).contains_key(stem) {
            if expected_records(test, rest).contains_key(stem) {
                let i = choose|i: int|
                    0 <= i < rest.len() && case_key((#[trigger] rest[i]).latest_image@) == Some(
                        stem,
                    );
                assert(observations[i] == rest[i]);
            } else {
                assert(case_key(observations[observations.len() - 1].latest_image@).unwrap()
                    == stem);
            }
        }
        if exists|i: int|
            0 <= i < observations.len() && case_key((#[trigger] observations[i]).latest_image@)
                == Some(stem) {
            let i = choose|i: int|
                0 <= i < observations.len() && case_key(
                    (#[trigger] observations[i]).latest_image@,
                ) == Some(stem);
            if i < observations.len() - 1 {
                assert(rest[i] == observations[i]);
            }
        }
    }
}

/// Each observed image whose stem no later image shares has the record of
/// its own case: missing-baseline where its baseline is absent, passed where
/// the comparison found no difference, failed with all three artifacts where
/// it found one.
pub proof fn lemma_each_image_has_its_record(
    test: Seq<char>,
    observations: Seq<Observation>,
    i: int,
)
    requires
        0 <= i < observations.len(),
        all_named(observations),
        forall|j: int|
            i < j < observations.len() ==> case_key((#[trigger] observations[j]).latest_image@)
                != case_key(observations[i].latest_image@),
    ensures
        expected_records(test, observations).contains_key(
            case_key(observations[i].latest_image@).unwrap(),
        ),
        expected_records(test, observations)[case_key(observations[i].latest_image@).unwrap()]
            == record_for(
            test,
            case_key(observations[i].latest_image@).unwrap(),
            observations[i].baseline_exists,
            observations[i].difference is Some,
        ),
    decreases observations.len(),
{
    if i < observations.len() - 1 {
        let rest = observations.drop_last();
        assert(rest[i] == observations[i]);
        assert(all_named(rest)) by {
            assert forall|j: int| 0 <= j < rest.len() implies case_key(
                (#[trigger] rest[j]).latest_image@,
            ) is Some by {
                assert(rest[j] == observations[j]);
            }
        }
        assert forall|j: int| i < j < rest.len() implies case_key(
            (#[trigger] rest[j]).latest_image@,
        ) != case_key(rest[i].latest_image@) by {
            assert(rest[j] == observations[j]);
        }
        lemma_each_image_has_its_record(test, rest, i);
        let last = observations[observations.len() - 1];
        assert(case_key(last.latest_image@) is Some);
        assert(case_key(last.latest_image@) != case_key(observations[i].latest_image@));
    } else {
        assert(case_key(observations[i].latest_image@) is Some);
    }
}

/// `results` holds exactly the stems of `expected`, each with its record.
pub open spec fn holds_records(results: Table<Diff>, expected: Map<Seq<char>, DiffView>) -> bool {
    forall|stem: Seq<char>|
        {
            &&& #[trigger] results.as_map().contains_key(stem) == expected.contains_key(stem)
            &&& expected.contains_key(stem) ==> results.as_map()[stem]@ == expected[stem]
        }
}

/// Works the test folder `latest_test_folder` through: runs its worker over
/// the observed images in their order and returns the folder's name with the
/// records. `None` where the folder or one of the images has no usable name.
pub fn diff_images_for_test_folder(
    latest_test_folder: &str,
    observations: &Vec<Observation>,
) -> (r: Option<(String, Table<Diff>)>)
    ensures
        r is Some <==> final_component(latest_test_folder@) is Some && all_named(observations@),
        r is Some ==> r.unwrap().0@ == final_component(latest_test_folder@).unwrap()
            && holds_records(
            r.unwrap().1,
            expected_records(r.unwrap().0@, observations@),
        ),
{
    let (started, first) = Worker::start(latest_test_folder);
    match first {
        Action::ListImages { .. } => {},
        _ => {
            return None;
        },
    }
    let ghost test = started.test_name@;
    let mut worker = started;
    let mut i: usize = 0;
    while i < observations.len()
        invariant
            i <= observations.len(),
            worker.phase is Matching,
            worker.test_name@ == test,
            all_named(observations@.take(i as int)),
            holds_records(worker.results, expected_records(test, observations@.take(i as int))),
        decreases observations.len() - i,
    {
        let seen = &observations[i];
        let ghost before = expected_records(test, observations@.take(i as int));
        proof {
            assert(observations@.take(i + 1).drop_last() =~= observations@.take(i as int));
            assert(observations@.take(i + 1).last() == observations@[i as int]);
        }
        let (probing, probe) = worker.step(Event::Image(seen.latest_image.clone()));
        match probe {
            Action::Probe { .. } => {},
            _ => {
                return None;
            },
        }
        let (pending, _) = probing.step(Event::Baseline(seen.baseline_exists));
        let (recorded, _) = if !seen.baseline_exists {
            pending.step(Event::Written)
        } else {
            let (compared, _) = pending.step(Event::Compared(seen.difference));
            if seen.difference.is_some() {
                compared.step(Event::Written)
            } else {
                (compared, Action::NextImage)
            }
        };
        proof {
            let stem = case_key(seen.latest_image@).unwrap();
            let after = before.insert(
                stem,
                record_for(test, stem, seen.baseline_exists, seen.difference is Some),
            );
            assert(expected_records(test, observations@.take(i + 1)) == after);
            assert forall|j: int| 0 <= j < i + 1 implies case_key(
                (#[trigger] observations@.take(i + 1)[j]).latest_image@,
            ) is Some by {
                if j < i {
                    assert(observations@.take(i as int)[j] == observations@.take(i + 1)[j]);
                }
            }
        }
        worker = recorded;
        i += 1;
    }
    proof {
        assert(observations@.take(i as int) =~= observations@);
    }
    let (done, _) = worker.step(Event::NoMoreImages);
    let Worker { test_name, results, .. } = done;
    Some((test_name, results))
}

} // verus!
