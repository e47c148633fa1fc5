use vstd::prelude::*;
use vstd::string::*;
use crate::export::{join_path, path_in};

verus! {

/// Directory of the e-reader's data, relative to the home directory.
pub const CONTAINER_DIR: &'static str = "Library/Containers/com.apple.iBooksX/Data/Documents";

/// Directory and file of the library catalog.
pub const LIBRARY_DIR: &'static str = "BKLibrary";

pub const LIBRARY_FILE: &'static str = "BKLibrary-1-091020131601.sqlite";

/// Directory and file of the annotation store.
pub const ANNOTATION_DIR: &'static str = "AEAnnotation";

pub const ANNOTATION_FILE: &'static str = "AEAnnotation_v10312011_1727_local.sqlite";

/// Locations of the two databases of the e-reader.
pub struct IBooksPaths {
    pub library_path: String,
    pub highlights_path: String,
}

/// Where the database `file` in the data subdirectory `dir` lies under `home`.
pub open spec fn store_path(home: Seq<char>, dir: Seq<char>, file: Seq<char>) -> Seq<char> {
    path_in(path_in(path_in(home, CONTAINER_DIR@), dir), file)
}

impl IBooksPaths {
    /// The database locations under the home directory `home`.
    pub open spec fn in_home(self, home: Seq<char>) -> bool {
        &&& self.library_path@ == store_path(home, LIBRARY_DIR@, LIBRARY_FILE@)
        &&& self.highlights_path@ == store_path(home, ANNOTATION_DIR@, ANNOTATION_FILE@)
    }
}

/// Relies on dirs::home_dir: the current user's home directory, when it can be
/// found and is valid Unicode. Nothing is stated of its value.
#[verifier::external_body]
pub(crate) fn home_dir() -> (r: Option<String>) {
    match dirs::home_dir() {
        Some(p) => p.into_os_string().into_string().ok(),
        None => None,
    }
}

/// The database locations under the home directory `home`.
pub fn ibooks_paths_in(home: &str) -> (r: IBooksPaths)
    ensures
        r.in_home(home@),
{
    let container = join_path(home, CONTAINER_DIR);
    let library_dir = join_path(container.as_str(), LIBRARY_DIR);
    let annotation_dir = join_path(container.as_str(), ANNOTATION_DIR);
    IBooksPaths {
        library_path: join_path(library_dir.as_str(), LIBRARY_FILE),
        highlights_path: join_path(annotation_dir.as_str(), ANNOTATION_FILE),
    }
}

/// The database locations under the current user's home directory, if it can be found.
pub fn get_ibooks_paths() -> (r: Option<IBooksPaths>)
    ensures
        r matches Some(p) ==> exists|home: Seq<char>| #[trigger] p.in_home(home),
{
    match home_dir() {
        Some(home) => {
            let p = ibooks_paths_in(home.as_str());
            let r = Some(p);
            assert(r matches Some(q) && q.in_home(home@));
            r
        },
        None => None,
    }
}

} // verus!
