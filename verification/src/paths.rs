//! The naming convention that ties module declarations to files.
//!
//! Paths are held as text. They are taken apart and put together by
//! `std::path`, so that a path means here what it means to the operating
//! system; the convention itself is stated over the results.

use vstd::prelude::*;

verus! {

/// The final component of `path`, as `std::path::Path::file_name` reports it.
pub uninterp spec fn file_name_of(path: Seq<char>) -> Option<Seq<char>>;

/// `path` after `std::path::PathBuf::pop`.
pub uninterp spec fn popped(path: Seq<char>) -> Seq<char>;

/// `path` after `std::path::PathBuf::set_extension` with `extension`.
pub uninterp spec fn with_extension(path: Seq<char>, extension: Seq<char>) -> Seq<char>;

/// `path` with `segment` adjoined by `std::path::Path::join`.
pub uninterp spec fn joined(path: Seq<char>, segment: Seq<char>) -> Seq<char>;

/// Whether `c` separates the components of a path on some platform.
pub open spec fn is_separator(c: char) -> bool {
    c == '/' || c == '\\'
}

/// Calls `std::path::Path::file_name`. The result depends on the text of
/// `path` alone; a path that ends in `..`, or has no component at all, has
/// no file name.
#[verifier::external_body]
fn file_name(path: &str) -> (name: Option<String>)
    ensures
        name.is_some() == file_name_of(path@).is_some(),
        name matches Some(n) ==> file_name_of(path@) == Some(n@),
{
    match std::path::Path::new(path).file_name() {
        Some(name) => Some(name.to_string_lossy().into_owned()),
        None => None,
    }
}

/// Calls `std::path::PathBuf::pop`, which drops the final component, or
/// leaves a path without a parent as it is. The result depends on the text
/// of `path` alone.
#[verifier::external_body]
fn pop(path: &str) -> (parent: String)
    ensures
        parent@ == popped(path@),
{
    let mut buffer = std::path::PathBuf::from(path);
    buffer.pop();
    buffer.to_string_lossy().into_owned()
}

/// Calls `std::path::PathBuf::set_extension`, which replaces the extension
/// of the file name, adds one where there was none, and removes it where
/// `extension` is empty. The result depends on the two texts alone.
/// `set_extension` panics on an extension that holds a separator.
#[verifier::external_body]
fn set_extension(path: &str, extension: &str) -> (changed: String)
    requires
        forall|i: int| 0 <= i < extension@.len() ==> !is_separator(#[trigger] extension@[i]),
    ensures
        changed@ == with_extension(path@, extension@),
{
    let mut buffer = std::path::PathBuf::from(path);
    buffer.set_extension(extension);
    buffer.to_string_lossy().into_owned()
}

/// Calls `std::path::Path::join`. The result depends on the two texts alone.
#[verifier::external_body]
fn join(path: &str, segment: &str) -> (longer: String)
    ensures
        longer@ == joined(path@, segment@),
{
    std::path::Path::new(path).join(segment).to_string_lossy().into_owned()
}

/// A file stands for its directory when it is named `mod.rs` or `lib.rs`.
pub open spec fn is_index_file(path: Seq<char>) -> bool {
    file_name_of(path) == Some("mod.rs"@) || file_name_of(path) == Some("lib.rs"@)
}

/// The directory below which the modules declared in `file` are looked up:
/// the directory of an index file, and otherwise the file's own path
/// without its extension.
pub open spec fn base_directory_of(file: Seq<char>) -> Seq<char> {
    if is_index_file(file) {
        popped(file)
    } else {
        with_extension(file, ""@)
    }
}

/// `directory` with the segments `path[1]`, ..., `path[upto - 1]` adjoined
/// in turn. The leading segment of an internal path names the file's own
/// module and adds nothing.
pub open spec fn nested_directory(directory: Seq<char>, path: Seq<Seq<char>>, upto: int) -> Seq<
    char,
>
    decreases upto,
{
    if upto <= 1 {
        directory
    } else {
        joined(nested_directory(directory, path, upto - 1), path[upto - 1])
    }
}

/// The directory that stands for the module at `internal_path` of `file`.
pub open spec fn module_directory_of(file: Seq<char>, internal_path: Seq<Seq<char>>) -> Seq<char> {
    nested_directory(base_directory_of(file), internal_path, internal_path.len() as int)
}

/// The index file of `directory`.
pub open spec fn index_file_of(directory: Seq<char>) -> Seq<char> {
    joined(directory, "mod.rs"@)
}

/// The source file named after `directory`, beside it.
pub open spec fn sibling_file_of(directory: Seq<char>) -> Seq<char> {
    with_extension(directory, "rs"@)
}

/// The file that holds the module for which `directory` stands: its index
/// file where that exists, the sibling file otherwise.
pub open spec fn module_file_of(directory: Seq<char>, index_exists: bool) -> Seq<char> {
    if index_exists {
        index_file_of(directory)
    } else {
        sibling_file_of(directory)
    }
}

/// The internal path given to the module of a file that was found for a
/// declaration `mod name;`: the name alone, whatever surrounds the
/// declaration.
///
/// The segments before the name are dropped on purpose. The directory of a
/// module declared further down is then worked out from the file's own
/// path, which already holds them.
pub open spec fn file_root_path_of(name: Seq<char>) -> Seq<Seq<char>> {
    seq![name]
}

/// The internal path of the root module.
pub open spec fn root_path() -> Seq<Seq<char>> {
    seq!["crate"@]
}

/// The texts of a list of path segments.
pub open spec fn segments(path: Seq<String>) -> Seq<Seq<char>> {
    path.map_values(|segment: String| segment@)
}

/// Computes [`base_directory_of`].
pub fn base_directory(file: &str) -> (directory: String)
    ensures
        directory@ == base_directory_of(file@),
{
    let index = match file_name(file) {
        Some(name) => name == "mod.rs".to_owned() || name == "lib.rs".to_owned(),
        None => false,
    };
    if index {
        pop(file)
    } else {
        proof {
            reveal_strlit("");
        }
        set_extension(file, "")
    }
}

/// Computes [`module_directory_of`].
pub fn module_directory(file: &str, internal_path: &Vec<String>) -> (directory: String)
    ensures
        directory@ == module_directory_of(file@, segments(internal_path@)),
{
    let mut directory = base_directory(file);
    let mut i: usize = 1;
    while i < internal_path.len()
        invariant
            1 <= i,
            i <= internal_path.len() || internal_path.len() == 0,
            directory@ == nested_directory(
                base_directory_of(file@),
                segments(internal_path@),
                if i <= internal_path.len() { i as int } else { 0 },
            ),
        decreases internal_path.len() - i,
    {
        directory = join(directory.as_str(), internal_path[i].as_str());
        i = i + 1;
    }
    directory
}

/// Computes [`file_root_path_of`].
pub fn file_root_path(name: String) -> (internal_path: Vec<String>)
    ensures
        segments(internal_path@) == file_root_path_of(name@),
{
    let mut internal_path: Vec<String> = Vec::new();
    internal_path.push(name);
    assert(segments(internal_path@) =~= seq![name@]);
    internal_path
}

/// Computes [`root_path`].
pub fn root_internal_path() -> (internal_path: Vec<String>)
    ensures
        segments(internal_path@) == root_path(),
{
    let mut internal_path: Vec<String> = Vec::new();
    internal_path.push("crate".to_owned());
    assert(segments(internal_path@) =~= seq!["crate"@]);
    internal_path
}

/// Computes [`index_file_of`].
pub fn index_file(directory: &str) -> (file: String)
    ensures
        file@ == index_file_of(directory@),
{
    join(directory, "mod.rs")
}

/// Computes [`module_file_of`]: the decision between the index file and
/// the sibling file, given whether the index file exists.
pub fn module_file(directory: &str, index_exists: bool) -> (file: String)
    ensures
        file@ == module_file_of(directory@, index_exists),
{
    if index_exists {
        index_file(directory)
    } else {
        proof {
            reveal_strlit("rs");
        }
        set_extension(directory, "rs")
    }
}

} // verus!
