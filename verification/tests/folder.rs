use visual_regression::folder::{diff_images_for_test_folder, Observation};
use visual_regression::outcome::Outcome;

fn seen(latest_image: &str, baseline_exists: bool, difference: Option<i32>) -> Observation {
    Observation { latest_image: latest_image.to_string(), baseline_exists, difference }
}

#[test]
fn folder_without_images_has_no_records() {
    let (name, records) = diff_images_for_test_folder("Latest/login", &vec![]).unwrap();
    assert_eq!(name, "login");
    assert_eq!(records.len(), 0);
}

#[test]
fn folder_records_each_image_by_its_stem() {
    let observations = vec![
        seen("Latest/login/button.png", true, None),
        seen("Latest/login/form.png", false, None),
        seen("Latest/login/logo.png", true, Some(120)),
    ];
    let (name, records) = diff_images_for_test_folder("Latest/login", &observations).unwrap();
    assert_eq!(name, "login");
    assert_eq!(records.len(), 3);

    let button = records.get("button").unwrap();
    assert_eq!(button.outcome(), Outcome::Passed);
    assert!(button.passed);
    assert_eq!(button.failed_image, None);

    let form = records.get("form").unwrap();
    assert_eq!(form.outcome(), Outcome::FailedMissingBaseline);
    assert_eq!(form.failed_image.as_deref(), Some("Diff/login/form_latest.png"));
    assert_eq!(form.baseline_image, None);
    assert_eq!(form.diff_image, None);

    let logo = records.get("logo").unwrap();
    assert_eq!(logo.outcome(), Outcome::FailedMismatch);
    assert_eq!(logo.failed_image.as_deref(), Some("Diff/login/logo_latest.png"));
    assert_eq!(logo.baseline_image.as_deref(), Some("Diff/login/logo_baseline.png"));
    assert_eq!(logo.diff_image.as_deref(), Some("Diff/login/logo_diff.png"));
}

#[test]
fn folder_ignores_the_comparison_of_an_image_without_baseline() {
    let observations = vec![seen("Latest/login/button.png", false, Some(5))];
    let (_, records) = diff_images_for_test_folder("Latest/login", &observations).unwrap();
    let button = records.get("button").unwrap();
    assert_eq!(button.outcome(), Outcome::FailedMissingBaseline);
    assert_eq!(button.diff_image, None);
}

#[test]
fn folder_keeps_the_later_of_two_images_with_one_stem() {
    let observations = vec![
        seen("Latest/login/button.png", true, Some(1)),
        seen("Latest/login/button.jpg", true, None),
    ];
    let (_, records) = diff_images_for_test_folder("Latest/login", &observations).unwrap();
    assert_eq!(records.len(), 1);
    assert!(records.get("button").unwrap().passed);
}

#[test]
fn folder_name_is_taken_from_the_last_component() {
    let (name, _) = diff_images_for_test_folder("some/where/Latest/cart/", &vec![]).unwrap();
    assert_eq!(name, "cart");
}

#[test]
fn folder_without_a_name_is_refused() {
    assert!(diff_images_for_test_folder("", &vec![]).is_none());
    assert!(diff_images_for_test_folder("Latest/..", &vec![]).is_none());
}

#[test]
fn folder_with_a_nameless_image_is_refused() {
    let observations =
        vec![seen("Latest/login/button.png", true, None), seen("Latest/login/..", true, None)];
    assert!(diff_images_for_test_folder("Latest/login", &observations).is_none());
}

#[test]
fn folder_worked_through_twice_gives_the_same_records() {
    let observations = vec![
        seen("Latest/login/a.png", true, Some(2)),
        seen("Latest/login/b.png", false, None),
    ];
    let one = diff_images_for_test_folder("Latest/login", &observations).unwrap();
    let two = diff_images_for_test_folder("Latest/login", &observations).unwrap();
    assert_eq!(format!("{one:?}"), format!("{two:?}"));
}
