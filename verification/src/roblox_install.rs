//! Where Studio is installed.
//!
//! Looking at the disk is the caller's business. What is decided here is
//! which of the version folders found there is the installation, and what
//! is remembered of it.

use vstd::prelude::*;

verus! {

/// One folder found under the installation's `Versions` folder, with what
/// the caller saw of it.
#[derive(Debug, PartialEq, Eq)]
pub struct VersionFolder {
    /// Whether the entry is a directory.
    pub is_directory: bool,
    /// Whether Studio's executable is a file in it.
    pub has_executable: bool,
    /// The path of Studio's executable in it.
    pub executable: String,
    /// The path of the folder of built-in plugins in it.
    pub built_in_plugins: String,
}

/// Why no installation was found.
#[derive(Debug, Clone, Copy, PartialEq, Eq, Structural)]
pub enum LocateError {
    /// Roblox is not installed: there is no base folder.
    InstallNotFound,
    /// Roblox is installed, but no version folder holds Studio.
    StudioNotFound,
}

/// An installation of Studio.
#[derive(Debug, PartialEq, Eq)]
pub struct RobloxStudio {
    exe_path: String,
    built_in_plugins_path: String,
    plugins_path: String,
}

/// A `RobloxStudio` as a mathematical value.
pub struct StudioView {
    pub exe_path: Seq<char>,
    pub built_in_plugins_path: Seq<char>,
    pub plugins_path: Seq<char>,
}

impl View for RobloxStudio {
    type V = StudioView;

    closed spec fn view(&self) -> StudioView {
        StudioView {
            exe_path: self.exe_path@,
            built_in_plugins_path: self.built_in_plugins_path@,
            plugins_path: self.plugins_path@,
        }
    }
}

impl VersionFolder {
    /// Whether the folder holds Studio: it is a directory and the
    /// executable is a file in it.
    pub open spec fn holds_studio(self) -> bool {
        self.is_directory && self.has_executable
    }
}

/// The position of the first folder that holds Studio, if there is one.
pub open spec fn first_studio(versions: Seq<VersionFolder>) -> Option<int>
    decreases versions.len(),
{
    if versions.len() == 0 {
        None
    } else {
        match first_studio(versions.drop_last()) {
            Some(at) => Some(at),
            None => if versions.last().holds_studio() {
                Some(versions.len() - 1)
            } else {
                None
            },
        }
    }
}

/// What `RobloxStudio::locate` comes to: without a base folder there is no
/// installation; with one, the installation is the first version folder
/// that holds Studio, and its plugins are kept in `plugins`.
pub open spec fn located(plugins: Option<Seq<char>>, versions: Seq<VersionFolder>) -> Result<
    StudioView,
    LocateError,
> {
    match plugins {
        None => Err(LocateError::InstallNotFound),
        Some(plugins_path) => match first_studio(versions) {
            None => Err(LocateError::StudioNotFound),
            Some(at) => Ok(
                StudioView {
                    exe_path: versions[at].executable@,
                    built_in_plugins_path: versions[at].built_in_plugins@,
                    plugins_path,
                },
            ),
        },
    }
}

/// `first_studio` finds a folder that holds Studio, and none holds Studio
/// before it; it finds nothing only where no folder holds Studio.
pub proof fn lemma_first_studio(versions: Seq<VersionFolder>)
    ensures
        match first_studio(versions) {
            Some(at) => 0 <= at < versions.len() && versions[at].holds_studio() && forall|i: int|
                0 <= i < at ==> !(#[trigger] versions[i]).holds_studio(),
            None => forall|i: int| 0 <= i < versions.len() ==> !(#[trigger] versions[i]).holds_studio(),
        },
    decreases versions.len(),
{
    if versions.len() > 0 {
        lemma_first_studio(versions.drop_last());
        assert(forall|i: int|
            0 <= i < versions.len() - 1 ==> versions.drop_last()[i] == versions[i]);
    }
}

impl RobloxStudio {
    /// Picks the installation among what was found on disk. `plugins` is
    /// the path of the folder of the user's plugins under the base folder,
    /// `None` where there is no base folder; `versions` are the entries of
    /// the `Versions` folder in the order in which the disk listed them.
    pub fn locate(plugins: Option<String>, versions: &Vec<VersionFolder>) -> (studio: Result<
        RobloxStudio,
        LocateError,
    >)
        ensures
            match studio {
                Ok(found) => located(
                    match plugins {
                        Some(path) => Some(path@),
                        None => None,
                    },
                    versions@,
                ) == Ok::<StudioView, LocateError>(found@),
                Err(error) => located(
                    match plugins {
                        Some(path) => Some(path@),
                        None => None,
                    },
                    versions@,
                ) == Err::<StudioView, LocateError>(error),
            },
    {
        let plugins_path = match plugins {
            Some(path) => path,
            None => {
                return Err(LocateError::InstallNotFound);
            },
        };
        let mut i: usize = 0;
        while i < versions.len()
            invariant
                i <= versions.len(),
                plugins == Some(plugins_path),
                forall|j: int| 0 <= j < i ==> !(#[trigger] versions[j]).holds_studio(),
            decreases versions.len() - i,
        {
            if versions[i].is_directory && versions[i].has_executable {
                proof {
                    lemma_first_studio(versions@);
                }
                return Ok(
                    RobloxStudio {
                        exe_path: versions[i].executable.clone(),
                        built_in_plugins_path: versions[i].built_in_plugins.clone(),
                        plugins_path,
                    },
                );
            }
            i += 1;
        }
        proof {
            lemma_first_studio(versions@);
        }
        Err(LocateError::StudioNotFound)
    }

    /// The path of Studio's executable.
    pub fn exe_path(&self) -> (path: String)
        ensures
            path@ == self@.exe_path,
    {
        self.exe_path.clone()
    }

    /// The path of the folder of the plugins that come with Studio.
    pub fn built_in_plugins_path(&self) -> (path: String)
        ensures
            path@ == self@.built_in_plugins_path,
    {
        self.built_in_plugins_path.clone()
    }

    /// The path of the folder of the user's plugins, where the plugin of a
    /// run is put.
    pub fn plugins_path(&self) -> (path: String)
        ensures
            path@ == self@.plugins_path,
    {
        self.plugins_path.clone()
    }
}

} // verus!
