//! Setting up the folders that the downloader works in.

use crate::config::{texts, Config};
use crate::text::{followed_by, joined};
use vstd::prelude::*;

verus! {

/// What stands at a path.
#[derive(Clone, Copy, Debug, PartialEq, Eq)]
pub enum PathKind {
    /// Nothing.
    Missing,
    /// A directory.
    Directory,
    /// Something that is no directory.
    Other,
}

/// What is to be done about a folder that the downloader works in.
#[derive(Clone, Copy, Debug, PartialEq, Eq)]
pub enum FolderStep {
    /// The folder is there: nothing is to be done.
    Keep,
    /// The folder is to be made, with the folders above it that are missing.
    Create,
}

/// Why the folders could not be set up.
#[derive(Debug, PartialEq, Eq)]
pub enum SetupError {
    /// Something that is no directory stands where the folder with this name belongs.
    NotADirectory { name: String },
}

impl SetupError {
    /// What is said of the error.
    pub fn message(&self) -> (text: String)
        ensures
            match *self {
                SetupError::NotADirectory { name } => text@ == "Please remove the file named as "@
                    + name@,
            },
    {
        match self {
            SetupError::NotADirectory { name } => followed_by(
                "Please remove the file named as ",
                name.as_str(),
            ),
        }
    }
}

/// What is to be done about a folder, given what stands at its path: a folder that is
/// missing is made, one that is there is kept, and anything else in its place is an
/// error that names the folder.
pub fn check_folder(kind: PathKind, folder_name: &str) -> (step: Result<FolderStep, SetupError>)
    ensures
        match kind {
            PathKind::Missing => step == Ok::<FolderStep, SetupError>(FolderStep::Create),
            PathKind::Directory => step == Ok::<FolderStep, SetupError>(FolderStep::Keep),
            PathKind::Other => step matches Err(SetupError::NotADirectory { name }) && name@
                == folder_name@,
        },
{
    match kind {
        PathKind::Missing => Ok(FolderStep::Create),
        PathKind::Directory => Ok(FolderStep::Keep),
        PathKind::Other => Err(SetupError::NotADirectory { name: folder_name.to_owned() }),
    }
}

/// The folders that are to be made, in the order in which to make them.
pub open spec fn folders_to_make(
    working: Seq<char>,
    working_kind: PathKind,
    archives: Seq<char>,
    archives_kind: PathKind,
) -> Seq<Seq<char>> {
    (if working_kind is Missing {
        seq![working]
    } else {
        Seq::empty()
    }) + (if archives_kind is Missing {
        seq![archives]
    } else {
        Seq::empty()
    })
}

/// Sets up the folders that the downloader works in: the working folder and, inside it,
/// the folder for archives. Given what stands at the two paths, the result lists the
/// folders that are to be made, the working folder first. Something that is no directory
/// in the place of a folder is an error that names the folder; the working folder is
/// looked at first.
pub fn setup_folders(
    config: &Config,
    home: Option<&str>,
    working_kind: PathKind,
    archives_kind: PathKind,
) -> (plan: Result<Vec<String>, SetupError>)
    ensures
        ({
            let home_view = match home {
                Some(h) => Some(h@),
                None => None,
            };
            let working = config.spec_tmp_folder_path(home_view);
            let archives = joined(working, config.tmp_iso_folder_name@);
            match plan {
                Ok(folders) => !(working_kind is Other) && !(archives_kind is Other) && texts(
                    folders@,
                ) == folders_to_make(working, working_kind, archives, archives_kind),
                Err(SetupError::NotADirectory { name }) => if working_kind is Other {
                    name@ == config.tmp_folder_name@
                } else {
                    archives_kind is Other && name@ == config.tmp_iso_folder_name@
                },
            }
        }),
{
    let mut folders: Vec<String> = Vec::new();
    match check_folder(working_kind, config.tmp_folder_name.as_str()) {
        Ok(FolderStep::Create) => {
            folders.push(config.tmp_folder_path(home));
        },
        Ok(FolderStep::Keep) => {},
        Err(error) => {
            return Err(error);
        },
    }
    match check_folder(archives_kind, config.tmp_iso_folder_name.as_str()) {
        Ok(FolderStep::Create) => {
            folders.push(config.tmp_iso_folder_path(home));
        },
        Ok(FolderStep::Keep) => {},
        Err(error) => {
            return Err(error);
        },
    }
    proof {
        let home_view = match home {
            Some(h) => Some(h@),
            None => None,
        };
        let working = config.spec_tmp_folder_path(home_view);
        let archives = joined(working, config.tmp_iso_folder_name@);
        assert(texts(folders@) =~= folders_to_make(working, working_kind, archives, archives_kind));
    }
    Ok(folders)
}

} // verus!
