//! Where this tool keeps its files.
//!
//! Everything lies below two directories of the user: the directory for
//! application data and the home directory. Both are found once, when the
//! program starts; without them there is nowhere to go.

use vstd::prelude::*;
use vstd::string::*;

verus! {

/// The places of this tool's files and directories.
#[derive(Debug, Clone, PartialEq, Eq)]
pub struct AppPaths {
    /// The directory of this tool below the user's application data.
    pub base_path: String,
    /// The directory of the log files.
    pub logging_path: String,
    /// The directory of the local store.
    pub data_folder_path: String,
    /// The file of the local store.
    pub data_path: String,
    /// The directory of the preference file.
    pub user_config_folder_path: String,
    /// The preference file.
    pub user_config_path: String,
}

/// What an `AppPaths` holds.
pub struct AppPathsView {
    pub base_path: Seq<char>,
    pub logging_path: Seq<char>,
    pub data_folder_path: Seq<char>,
    pub data_path: Seq<char>,
    pub user_config_folder_path: Seq<char>,
    pub user_config_path: Seq<char>,
}

impl View for AppPaths {
    type V = AppPathsView;

    open spec fn view(&self) -> AppPathsView {
        AppPathsView {
            base_path: self.base_path@,
            logging_path: self.logging_path@,
            data_folder_path: self.data_folder_path@,
            data_path: self.data_path@,
            user_config_folder_path: self.user_config_folder_path@,
            user_config_path: self.user_config_path@,
        }
    }
}

/// The places for a user whose application data lies in `data_dir` and
/// whose home directory is `home`.
pub open spec fn places(data_dir: Seq<char>, home: Seq<char>) -> AppPathsView {
    AppPathsView {
        base_path: data_dir + "/Kondo"@,
        logging_path: data_dir + "/Kondo/logs"@,
        data_folder_path: data_dir + "/Kondo"@,
        data_path: data_dir + "/Kondo/db.ron"@,
        user_config_folder_path: home + "/.kondo"@,
        user_config_path: home + "/.kondo/kondo.json"@,
    }
}

/// The directories that must be there before anything else is done, in the
/// order in which they are made.
pub open spec fn needed_directories(paths: AppPathsView) -> Seq<Seq<char>> {
    seq![
        paths.base_path,
        paths.logging_path,
        paths.data_folder_path,
        paths.user_config_folder_path,
    ]
}

impl AppPaths {
    /// The places for a user whose application data lies in `data_dir` and
    /// whose home directory is `home`.
    pub fn new(data_dir: &str, home: &str) -> (paths: Self)
        ensures
            paths@ == places(data_dir@, home@),
    {
        AppPaths {
            base_path: String::from_str(data_dir).concat("/Kondo"),
            logging_path: String::from_str(data_dir).concat("/Kondo/logs"),
            data_folder_path: String::from_str(data_dir).concat("/Kondo"),
            data_path: String::from_str(data_dir).concat("/Kondo/db.ron"),
            user_config_folder_path: String::from_str(home).concat("/.kondo"),
            user_config_path: String::from_str(home).concat("/.kondo/kondo.json"),
        }
    }

    /// The directories that must be there before anything else is done, in
    /// the order in which they are made.
    pub fn directories(&self) -> (dirs: Vec<String>)
        ensures
            dirs@.map_values(|d: String| d@) == needed_directories(self@),
    {
        let mut dirs: Vec<String> = Vec::new();
        dirs.push(self.base_path.clone());
        dirs.push(self.logging_path.clone());
        dirs.push(self.data_folder_path.clone());
        dirs.push(self.user_config_folder_path.clone());
        assert(dirs@.map_values(|d: String| d@) =~= needed_directories(self@));
        dirs
    }
}

/// Every file of this tool lies in a directory that is made at the start:
/// the local store in its directory, the preference file in its own.
pub proof fn lemma_files_lie_in_needed_directories(data_dir: Seq<char>, home: Seq<char>)
    ensures
        needed_directories(places(data_dir, home)).contains(places(data_dir, home).data_folder_path),
        places(data_dir, home).data_folder_path.is_prefix_of(places(data_dir, home).data_path),
        needed_directories(places(data_dir, home)).contains(
            places(data_dir, home).user_config_folder_path,
        ),
        places(data_dir, home).user_config_folder_path.is_prefix_of(
            places(data_dir, home).user_config_path,
        ),
{
    let p = places(data_dir, home);
    let needed = needed_directories(p);
    assert(needed[2] == p.data_folder_path);
    assert(needed[3] == p.user_config_folder_path);
    reveal_strlit("/Kondo");
    reveal_strlit("/Kondo/db.ron");
    reveal_strlit("/.kondo");
    reveal_strlit("/.kondo/kondo.json");
    assert("/Kondo"@ =~= "/Kondo/db.ron"@.subrange(0, 6));
    assert("/.kondo"@ =~= "/.kondo/kondo.json"@.subrange(0, 7));
    assert(p.data_folder_path =~= p.data_path.subrange(0, p.data_folder_path.len() as int));
    assert(p.user_config_folder_path =~= p.user_config_path.subrange(
        0,
        p.user_config_folder_path.len() as int,
    ));
}

} // verus!
