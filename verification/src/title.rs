//! The title of the diary's window.

use std::path::PathBuf;
use vstd::prelude::*;
use vstd::string::StringExecFns;

verus! {

/// `Path::file_name` of std, through `PathBuf`: the last component of the
/// path as text, or `None` where the path has none (it ends in `..`, or is
/// empty or a root). How a path divides into components depends on the
/// platform, so nothing is stated of the result.
#[verifier::external_body]
pub(crate) fn file_name_text(path: &PathBuf) -> (name: Option<String>) {
    path.file_name().map(|name| name.to_string_lossy().into_owned())
}

/// The title for a database file of the given name: the word `Diary`, and
/// after it the name where there is one.
pub open spec fn title_text(file_name: Option<Seq<char>>) -> Seq<char> {
    match file_name {
        Some(name) => "Diary - "@ + name,
        None => "Diary"@,
    }
}

/// What `title_text` is given for an optional file name.
pub open spec fn name_view(file_name: Option<String>) -> Option<Seq<char>> {
    match file_name {
        Some(name) => Some(name@),
        None => None,
    }
}

/// The title of the window, given the name of the database file.
pub fn title_for(file_name: Option<String>) -> (title: String)
    ensures
        title@ == title_text(name_view(file_name)),
{
    match file_name {
        Some(name) => {
            let mut title: String = "Diary - ".to_owned();
            title.append(name.as_str());
            title
        },
        None => "Diary".to_owned(),
    }
}

/// The title of the window for the database file at `db_path`.
pub fn window_title(db_path: &PathBuf) -> (title: String)
    ensures
        exists|name: Option<Seq<char>>| title@ == #[trigger] title_text(name),
{
    let name: Option<String> = file_name_text(db_path);
    let title: String = title_for(name);
    assert(title@ == title_text(name_view(name)));
    title
}

} // verus!
