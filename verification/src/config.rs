//! Resolution of the annotation configuration.
//!
//! Six tunables govern a run; each is independently defaulted when the
//! caller leaves it unset.

use vstd::prelude::*;

verus! {

/// The default truncation length for the revision identifier.
pub const DEFAULT_COMMIT_CHARACTERS: usize = 10;

/// The resolved configuration of one annotation run.
#[derive(Debug, Clone, PartialEq)]
pub struct Config {
    /// How many characters of the revision identifier the annotation keeps.
    pub commit_characters: usize,
    /// The directory searched for the manifest.
    pub workspace_dir: String,
    /// The directory searched for the repository.
    pub git_dir: String,
    /// Whether the footer includes the package name.
    pub package_name: bool,
    /// Whether the footer includes the package version.
    pub package_version: bool,
    /// Whether the footer includes the revision identifier.
    pub git_commit: bool,
}

impl Config {
    /// Merges the caller-supplied settings with the defaults: 10 commit
    /// characters, `../` for both directories, and every footer fact
    /// enabled.
    pub fn resolve(
        commit_characters: Option<usize>,
        workspace_dir: Option<String>,
        git_dir: Option<String>,
        package_name: Option<bool>,
        package_version: Option<bool>,
        git_commit: Option<bool>,
    ) -> (cfg: Config)
        ensures
            cfg.commit_characters == (match commit_characters {
                Some(n) => n,
                None => DEFAULT_COMMIT_CHARACTERS,
            }),
            cfg.workspace_dir@ == (match workspace_dir {
                Some(s) => s@,
                None => "../"@,
            }),
            cfg.git_dir@ == (match git_dir {
                Some(s) => s@,
                None => "../"@,
            }),
            cfg.package_name == (match package_name {
                Some(b) => b,
                None => true,
            }),
            cfg.package_version == (match package_version {
                Some(b) => b,
                None => true,
            }),
            cfg.git_commit == (match git_commit {
                Some(b) => b,
                None => true,
            }),
    {
        Config {
            commit_characters: match commit_characters {
                Some(n) => n,
                None => DEFAULT_COMMIT_CHARACTERS,
            },
            workspace_dir: match workspace_dir {
                Some(s) => s,
                None => "../".to_owned(),
            },
            git_dir: match git_dir {
                Some(s) => s,
                None => "../".to_owned(),
            },
            package_name: match package_name {
                Some(b) => b,
                None => true,
            },
            package_version: match package_version {
                Some(b) => b,
                None => true,
            },
            git_commit: match git_commit {
                Some(b) => b,
                None => true,
            },
        }
    }
}

} // verus!
