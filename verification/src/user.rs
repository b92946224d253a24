use vstd::prelude::*;

use crate::platform::resolve_user_dirs;
use crate::Directories;

verus! {

/// Per-user application directories, delegated to the platform's
/// project-directory convention for a `(qualifier, organization, application)`
/// identity: XDG base directories on Linux, Library subfolders on Mac OS,
/// AppData folders on Windows.
#[derive(Clone, Debug, PartialEq, Eq, PartialOrd, Ord, Hash)]
pub struct UserDirs {
    cache_dir: String,
    config_dir: String,
    data_dir: String,
}

impl UserDirs {
    /// Whether this instance holds exactly the three given paths.
    pub open spec fn holds(self, cache: Seq<char>, config: Seq<char>, data: Seq<char>) -> bool {
        &&& self.spec_cache_dir() == cache
        &&& self.spec_config_dir() == config
        &&& self.spec_data_dir() == data
    }

    /// Wrap three already-resolved per-user directories; the values are kept
    /// exactly as given.
    pub fn from_resolved(cache_dir: String, config_dir: String, data_dir: String) -> (r: UserDirs)
        ensures
            r.holds(cache_dir@, config_dir@, data_dir@),
    {
        UserDirs { cache_dir, config_dir, data_dir }
    }

    /// Create a new instance for the given identity by asking the platform for
    /// its per-user directories. The platform's answer decides the outcome:
    /// the result is absent exactly when no home directory could be determined
    /// for the current user or a resolved path was not valid UTF-8, so no more
    /// can be promised of it here. Every call asks the platform again; nothing
    /// is cached.
    pub fn new(qualifier: &str, organization: &str, application: &str) -> (r: Option<UserDirs>) {
        match resolve_user_dirs(qualifier, organization, application) {
            None => None,
            Some((cache, config, data)) => Some(Self::from_resolved(cache, config, data)),
        }
    }
}

impl Directories for UserDirs {
    closed spec fn spec_cache_dir(&self) -> Seq<char> {
        self.cache_dir@
    }

    closed spec fn spec_config_dir(&self) -> Seq<char> {
        self.config_dir@
    }

    closed spec fn spec_data_dir(&self) -> Seq<char> {
        self.data_dir@
    }

    fn cache_dir(&self) -> (r: &str) {
        self.cache_dir.as_str()
    }

    fn config_dir(&self) -> (r: &str) {
        self.config_dir.as_str()
    }

    fn data_dir(&self) -> (r: &str) {
        self.data_dir.as_str()
    }
}

} // verus!
