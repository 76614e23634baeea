//! Names of the three trees and of the files inside them.

use std::path::Path;
use vstd::prelude::*;
use vstd::string::*;

verus! {

/// Root of the accepted reference screenshots.
pub const BASELINE_FOLDER: &'static str = "Baseline";

/// Root of the newly produced screenshots.
pub const LATEST_FOLDER: &'static str = "Latest";

/// Root of the diagnostic tree that every run rebuilds.
pub const DIFF_FOLDER: &'static str = "Diff";

/// Final component of a path as `std::path::Path::file_name` gives it on the
/// target platform, or `None` where the path has none.
pub uninterp spec fn final_component(path: Seq<char>) -> Option<Seq<char>>;

/// Stem of a path as `std::path::Path::file_stem` gives it on the target
/// platform, or `None` where the path has no file name.
pub uninterp spec fn stem_component(path: Seq<char>) -> Option<Seq<char>>;

/// `dir`, a slash, `name`.
pub open spec fn joined(dir: Seq<char>, name: Seq<char>) -> Seq<char> {
    dir + seq!['/'] + name
}

/// `Diff/<test>`: where the artifacts of one test folder go.
pub open spec fn diff_folder_of(test: Seq<char>) -> Seq<char> {
    joined(DIFF_FOLDER@, test)
}

/// `Baseline/<test>/<image>`: where the baseline of a latest image is expected.
pub open spec fn baseline_path_of(test: Seq<char>, image: Seq<char>) -> Seq<char> {
    joined(joined(BASELINE_FOLDER@, test), image)
}

/// `Diff/<test>/<stem><suffix>`.
pub open spec fn artifact_path_of(test: Seq<char>, stem: Seq<char>, suffix: Seq<char>) -> Seq<
    char,
> {
    joined(diff_folder_of(test), stem + suffix)
}

/// `Diff/<test>/<stem>_latest.png`: the copy of the latest image.
pub open spec fn latest_copy_of(test: Seq<char>, stem: Seq<char>) -> Seq<char> {
    artifact_path_of(test, stem, "_latest.png"@)
}

/// `Diff/<test>/<stem>_baseline.png`: the copy of the baseline image.
pub open spec fn baseline_copy_of(test: Seq<char>, stem: Seq<char>) -> Seq<char> {
    artifact_path_of(test, stem, "_baseline.png"@)
}

/// `Diff/<test>/<stem>_diff.png`: the diff visualization.
pub open spec fn diff_image_of(test: Seq<char>, stem: Seq<char>) -> Seq<char> {
    artifact_path_of(test, stem, "_diff.png"@)
}

/// Calls `std::path::Path::file_name` on `path`. The contract only gives the
/// result its name: `final_component` of the path's characters. The result
/// borrows from `path`, which is valid UTF-8, so converting it back to `&str`
/// loses nothing.
#[verifier::external_body]
fn path_file_name(path: &str) -> (r: Option<&str>)
    ensures
        r.is_some() == final_component(path@).is_some(),
        r.is_some() ==> final_component(path@) == Some(r.unwrap()@),
{
    Path::new(path).file_name()?.to_str()
}

/// Calls `std::path::Path::file_stem` on `path`. The contract only gives the
/// result its name: `stem_component` of the path's characters.
#[verifier::external_body]
fn path_file_stem(path: &str) -> (r: Option<&str>)
    ensures
        r.is_some() == stem_component(path@).is_some(),
        r.is_some() ==> stem_component(path@) == Some(r.unwrap()@),
{
    Path::new(path).file_stem()?.to_str()
}

/// The last component of `path`, or `None` where the path has none (it is
/// empty, a root, or ends in `..`).
pub fn file_name(path: &str) -> (r: Option<&str>)
    ensures
        r.is_some() == final_component(path@).is_some(),
        r.is_some() ==> final_component(path@) == Some(r.unwrap()@),
{
    path_file_name(path)
}

/// The file name of `path` without its extension, or `None` where the path
/// has no file name.
pub fn file_stem(path: &str) -> (r: Option<&str>)
    ensures
        r.is_some() == stem_component(path@).is_some(),
        r.is_some() ==> stem_component(path@) == Some(r.unwrap()@),
{
    path_file_stem(path)
}

/// Joins a directory and a name with a slash.
pub fn join(dir: &str, name: &str) -> (r: String)
    ensures
        r@ == joined(dir@, name@),
{
    let mut r = String::from_str(dir);
    r.append("/");
    r.append(name);
    proof {
        reveal_strlit("/");
        assert("/"@ =~= seq!['/']);
    }
    r
}

/// The folder of the diagnostic tree that belongs to `test`.
pub fn diff_folder(test: &str) -> (r: String)
    ensures
        r@ == diff_folder_of(test@),
{
    join(DIFF_FOLDER, test)
}

/// The path at which the baseline of `image` in `test` is expected.
pub fn baseline_path(test: &str, image: &str) -> (r: String)
    ensures
        r@ == baseline_path_of(test@, image@),
{
    let folder = join(BASELINE_FOLDER, test);
    join(folder.as_str(), image)
}

/// The artifact of `test` named by `stem` and `suffix`.
fn artifact_path(test: &str, stem: &str, suffix: &str) -> (r: String)
    ensures
        r@ == artifact_path_of(test@, stem@, suffix@),
{
    let folder = diff_folder(test);
    let mut name = String::from_str(stem);
    name.append(suffix);
    join(folder.as_str(), name.as_str())
}

/// Where the latest image of the case `stem` in `test` is copied to.
pub fn latest_copy(test: &str, stem: &str) -> (r: String)
    ensures
        r@ == latest_copy_of(test@, stem@),
{
    artifact_path(test, stem, "_latest.png")
}

/// Where the baseline image of the case `stem` in `test` is copied to.
pub fn baseline_copy(test: &str, stem: &str) -> (r: String)
    ensures
        r@ == baseline_copy_of(test@, stem@),
{
    artifact_path(test, stem, "_baseline.png")
}

/// Where the diff visualization of the case `stem` in `test` is written.
pub fn diff_image(test: &str, stem: &str) -> (r: String)
    ensures
        r@ == diff_image_of(test@, stem@),
{
    artifact_path(test, stem, "_diff.png")
}

/// The glob pattern that finds the test folders: `Latest/*`.
pub fn test_folders_pattern() -> (r: String)
    ensures
        r@ == joined(LATEST_FOLDER@, "*"@),
{
    join(LATEST_FOLDER, "*")
}

/// The glob pattern that finds the images of a test folder: `<folder>/*.png`.
pub fn images_pattern(latest_test_folder: &str) -> (r: String)
    ensures
        r@ == joined(latest_test_folder@, "*.png"@),
{
    join(latest_test_folder, "*.png")
}

} // verus!
