use visual_regression::paths::{
    baseline_copy, baseline_path, diff_folder, diff_image, file_name, file_stem, images_pattern,
    join, latest_copy, test_folders_pattern, BASELINE_FOLDER, DIFF_FOLDER, LATEST_FOLDER,
};

#[test]
fn tree_roots_have_their_names() {
    assert_eq!(BASELINE_FOLDER, "Baseline");
    assert_eq!(LATEST_FOLDER, "Latest");
    assert_eq!(DIFF_FOLDER, "Diff");
}

#[test]
fn file_name_is_the_last_component() {
    assert_eq!(file_name("Latest/login"), Some("login"));
    assert_eq!(file_name("Latest/login/button.png"), Some("button.png"));
    assert_eq!(file_name("button.png"), Some("button.png"));
}

#[test]
fn file_name_ignores_a_trailing_slash() {
    assert_eq!(file_name("Latest/login/"), Some("login"));
}

#[test]
fn file_name_is_absent_for_paths_without_one() {
    assert_eq!(file_name(""), None);
    assert_eq!(file_name("/"), None);
    assert_eq!(file_name("Latest/.."), None);
}

#[test]
fn file_stem_drops_the_extension() {
    assert_eq!(file_stem("button.png"), Some("button"));
    assert_eq!(file_stem("Latest/login/button.png"), Some("button"));
    assert_eq!(file_stem("archive.tar.gz"), Some("archive.tar"));
}

#[test]
fn file_stem_keeps_names_without_an_extension() {
    assert_eq!(file_stem("button"), Some("button"));
    assert_eq!(file_stem(".hidden"), Some(".hidden"));
}

#[test]
fn file_stem_is_absent_without_a_file_name() {
    assert_eq!(file_stem(""), None);
    assert_eq!(file_stem(".."), None);
}

#[test]
fn join_puts_a_slash_between() {
    assert_eq!(join("a", "b"), "a/b");
    assert_eq!(join("", ""), "/");
    assert_eq!(join("Latest/login", "button.png"), "Latest/login/button.png");
}

#[test]
fn diff_folder_is_under_the_diff_tree() {
    assert_eq!(diff_folder("login"), "Diff/login");
}

#[test]
fn baseline_path_mirrors_the_latest_tree() {
    assert_eq!(baseline_path("login", "button.png"), "Baseline/login/button.png");
}

#[test]
fn artifact_names_follow_the_scheme() {
    assert_eq!(latest_copy("login", "button"), "Diff/login/button_latest.png");
    assert_eq!(baseline_copy("login", "button"), "Diff/login/button_baseline.png");
    assert_eq!(diff_image("login", "button"), "Diff/login/button_diff.png");
}

#[test]
fn artifact_names_keep_unicode_stems() {
    assert_eq!(latest_copy("größe", "knopf-ü"), "Diff/größe/knopf-ü_latest.png");
}

#[test]
fn patterns_list_folders_and_png_images() {
    assert_eq!(test_folders_pattern(), "Latest/*");
    assert_eq!(images_pattern("Latest/login"), "Latest/login/*.png");
}
