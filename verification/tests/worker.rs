use visual_regression::outcome::{Diff, Outcome};
use visual_regression::table::Table;
use visual_regression::worker::{
    match_image, Action, CompareOptions, Event, ImageCase, Phase, Worker,
};

fn text(s: &str) -> String {
    s.to_string()
}

fn started(folder: &str) -> Worker {
    let (worker, action) = Worker::start(folder);
    match action {
        Action::ListImages { pattern } => assert_eq!(pattern, format!("{folder}/*.png")),
        other => panic!("unexpected action {other:?}"),
    }
    worker
}

fn record<'a>(results: &'a Table<Diff>, stem: &str) -> &'a Diff {
    results.get(stem).unwrap()
}

#[test]
fn match_image_names_every_path_of_the_case() {
    let case = match_image("login", "Latest/login/button.png").unwrap();
    assert_eq!(case.stem, "button");
    assert_eq!(case.latest_image, "Latest/login/button.png");
    assert_eq!(case.baseline_image, "Baseline/login/button.png");
    assert_eq!(case.diff_folder, "Diff/login");
    assert_eq!(case.latest_copy, "Diff/login/button_latest.png");
    assert_eq!(case.baseline_copy, "Diff/login/button_baseline.png");
    assert_eq!(case.diff_image, "Diff/login/button_diff.png");
}

#[test]
fn image_case_is_built_from_its_names() {
    let case = ImageCase::of("cart", "elsewhere/total.png", "total.png", "total");
    assert_eq!(case.stem, "total");
    assert_eq!(case.latest_image, "elsewhere/total.png");
    assert_eq!(case.baseline_image, "Baseline/cart/total.png");
    assert_eq!(case.diff_folder, "Diff/cart");
    assert_eq!(case.latest_copy, "Diff/cart/total_latest.png");
    assert_eq!(case.baseline_copy, "Diff/cart/total_baseline.png");
    assert_eq!(case.diff_image, "Diff/cart/total_diff.png");
}

#[test]
fn match_image_rejects_a_path_without_a_name() {
    assert!(match_image("login", "Latest/login/..").is_none());
    assert!(match_image("login", "").is_none());
}

#[test]
fn start_names_the_test_after_its_folder() {
    let worker = started("Latest/login");
    assert_eq!(worker.test_name, "login");
    assert_eq!(worker.results.len(), 0);
    assert!(matches!(worker.phase, Phase::Matching));
}

#[test]
fn start_gives_up_on_a_folder_without_a_name() {
    let (worker, action) = Worker::start("..");
    assert!(matches!(worker.phase, Phase::Aborted));
    assert!(matches!(action, Action::Abort));
    assert_eq!(worker.results.len(), 0);
}

#[test]
fn empty_folder_finishes_with_no_records() {
    let (worker, action) = started("Latest/empty").step(Event::NoMoreImages);
    assert!(matches!(worker.phase, Phase::Done));
    assert!(matches!(action, Action::Finish));
    assert_eq!(worker.results.len(), 0);
}

#[test]
fn missing_baseline_is_recorded_after_the_copy() {
    let (worker, action) = started("Latest/login").step(Event::Image(text("Latest/login/button.png")));
    match action {
        Action::Probe { folder, baseline } => {
            assert_eq!(folder, "Diff/login");
            assert_eq!(baseline, "Baseline/login/button.png");
        },
        other => panic!("unexpected action {other:?}"),
    }
    let (worker, action) = worker.step(Event::Baseline(false));
    match action {
        Action::CopyLatest { from, to } => {
            assert_eq!(from, "Latest/login/button.png");
            assert_eq!(to, "Diff/login/button_latest.png");
        },
        other => panic!("unexpected action {other:?}"),
    }
    assert_eq!(worker.results.len(), 0);
    let (worker, action) = worker.step(Event::Written);
    assert!(matches!(action, Action::NextImage));
    assert!(matches!(worker.phase, Phase::Matching));
    assert_eq!(worker.results.len(), 1);
    let diff = record(&worker.results, "button");
    assert!(!diff.passed);
    assert_eq!(diff.failed_image.as_deref(), Some("Diff/login/button_latest.png"));
    assert_eq!(diff.baseline_image, None);
    assert_eq!(diff.diff_image, None);
    assert_eq!(diff.outcome(), Outcome::FailedMissingBaseline);
}

#[test]
fn equal_images_pass_without_artifacts() {
    let (worker, _) = started("Latest/login").step(Event::Image(text("Latest/login/button.png")));
    let (worker, action) = worker.step(Event::Baseline(true));
    match action {
        Action::Compare { baseline, latest, output, options } => {
            assert_eq!(baseline, "Baseline/login/button.png");
            assert_eq!(latest, "Latest/login/button.png");
            assert_eq!(output, "Diff/login/button_diff.png");
            assert!(options.require_matching_dimensions);
            assert!(!options.detect_anti_aliased_pixels);
            assert_eq!(options, CompareOptions::fixed());
        },
        other => panic!("unexpected action {other:?}"),
    }
    let (worker, action) = worker.step(Event::Compared(None));
    assert!(matches!(action, Action::NextImage));
    let diff = record(&worker.results, "button");
    assert!(diff.passed);
    assert_eq!(diff.failed_image, None);
    assert_eq!(diff.baseline_image, None);
    assert_eq!(diff.diff_image, None);
    assert_eq!(diff.outcome(), Outcome::Passed);
}

#[test]
fn differing_images_fail_with_three_artifacts() {
    let (worker, _) = started("Latest/login").step(Event::Image(text("Latest/login/button.png")));
    let (worker, _) = worker.step(Event::Baseline(true));
    let (worker, action) = worker.step(Event::Compared(Some(42)));
    match action {
        Action::CopyBoth { latest_from, latest_to, baseline_from, baseline_to } => {
            assert_eq!(latest_from, "Latest/login/button.png");
            assert_eq!(latest_to, "Diff/login/button_latest.png");
            assert_eq!(baseline_from, "Baseline/login/button.png");
            assert_eq!(baseline_to, "Diff/login/button_baseline.png");
        },
        other => panic!("unexpected action {other:?}"),
    }
    assert_eq!(worker.results.len(), 0);
    let (worker, action) = worker.step(Event::Written);
    assert!(matches!(action, Action::NextImage));
    let diff = record(&worker.results, "button");
    assert!(!diff.passed);
    assert_eq!(diff.failed_image.as_deref(), Some("Diff/login/button_latest.png"));
    assert_eq!(diff.baseline_image.as_deref(), Some("Diff/login/button_baseline.png"));
    assert_eq!(diff.diff_image.as_deref(), Some("Diff/login/button_diff.png"));
    assert_eq!(diff.outcome(), Outcome::FailedMismatch);
}

#[test]
fn a_difference_count_of_zero_is_still_a_difference() {
    let (worker, _) = started("Latest/login").step(Event::Image(text("Latest/login/a.png")));
    let (worker, _) = worker.step(Event::Baseline(true));
    let (worker, action) = worker.step(Event::Compared(Some(0)));
    assert!(matches!(action, Action::CopyBoth { .. }));
    assert!(matches!(worker.phase, Phase::Writing(..)));
}

#[test]
fn several_images_are_recorded_in_turn() {
    let worker = started("Latest/login");
    let (worker, _) = worker.step(Event::Image(text("Latest/login/a.png")));
    let (worker, _) = worker.step(Event::Baseline(true));
    let (worker, _) = worker.step(Event::Compared(None));
    let (worker, _) = worker.step(Event::Image(text("Latest/login/b.png")));
    let (worker, _) = worker.step(Event::Baseline(false));
    let (worker, _) = worker.step(Event::Written);
    let (worker, action) = worker.step(Event::NoMoreImages);
    assert!(matches!(action, Action::Finish));
    assert!(matches!(worker.phase, Phase::Done));
    assert_eq!(worker.results.len(), 2);
    assert_eq!(worker.results.name_at(0), "a");
    assert_eq!(worker.results.name_at(1), "b");
    assert!(record(&worker.results, "a").passed);
    assert!(!record(&worker.results, "b").passed);
}

#[test]
fn images_with_one_stem_share_one_record() {
    let worker = started("Latest/login");
    let (worker, _) = worker.step(Event::Image(text("Latest/login/a.png")));
    let (worker, _) = worker.step(Event::Baseline(true));
    let (worker, _) = worker.step(Event::Compared(None));
    let (worker, _) = worker.step(Event::Image(text("Latest/login/a.jpg")));
    let (worker, _) = worker.step(Event::Baseline(false));
    let (worker, _) = worker.step(Event::Written);
    assert_eq!(worker.results.len(), 1);
    assert!(!record(&worker.results, "a").passed);
}

#[test]
fn malformed_image_path_aborts_the_folder() {
    let (worker, action) = started("Latest/login").step(Event::Image(text("Latest/login/..")));
    assert!(matches!(action, Action::Abort));
    assert!(matches!(worker.phase, Phase::Aborted));
}

#[test]
fn failed_comparison_aborts_and_records_nothing() {
    let (worker, _) = started("Latest/login").step(Event::Image(text("Latest/login/a.png")));
    let (worker, _) = worker.step(Event::Baseline(true));
    let (worker, action) = worker.step(Event::Failed);
    assert!(matches!(action, Action::Abort));
    assert!(matches!(worker.phase, Phase::Aborted));
    assert_eq!(worker.results.len(), 0);
}

#[test]
fn failed_copy_aborts_and_records_nothing() {
    let (worker, _) = started("Latest/login").step(Event::Image(text("Latest/login/a.png")));
    let (worker, _) = worker.step(Event::Baseline(false));
    let (worker, action) = worker.step(Event::Failed);
    assert!(matches!(action, Action::Abort));
    assert_eq!(worker.results.len(), 0);
}

#[test]
fn unexpected_event_aborts() {
    let (worker, action) = started("Latest/login").step(Event::Written);
    assert!(matches!(action, Action::Abort));
    assert!(matches!(worker.phase, Phase::Aborted));
    let (worker, action) = worker.step(Event::NoMoreImages);
    assert!(matches!(action, Action::Abort));
    assert!(matches!(worker.phase, Phase::Aborted));
}

#[test]
fn done_worker_takes_no_more_images() {
    let (worker, _) = started("Latest/login").step(Event::NoMoreImages);
    let (worker, action) = worker.step(Event::Image(text("Latest/login/a.png")));
    assert!(matches!(action, Action::Abort));
    assert!(matches!(worker.phase, Phase::Aborted));
}

#[test]
fn same_events_give_the_same_records() {
    let drive = || {
        let worker = started("Latest/login");
        let (worker, _) = worker.step(Event::Image(text("Latest/login/a.png")));
        let (worker, _) = worker.step(Event::Baseline(true));
        let (worker, _) = worker.step(Event::Compared(Some(3)));
        let (worker, _) = worker.step(Event::Written);
        let (worker, _) = worker.step(Event::NoMoreImages);
        format!("{:?}", worker)
    };
    assert_eq!(drive(), drive());
}
