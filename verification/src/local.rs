use vstd::prelude::*;

use crate::path::{join, join_seq};
use crate::Directories;

verus! {

/// Directories for local development: all three are children of one base
/// directory, `<base>/cache`, `<base>/config` and `<base>/data`, with no
/// branching on the operating system.
#[derive(Clone, Debug, PartialEq, Eq, PartialOrd, Ord, Hash)]
pub struct LocalDirs {
    cache_dir: String,
    config_dir: String,
    data_dir: String,
}

/// The base directory that [`LocalDirs::new`] derives from a working
/// directory: its `.local` child.
pub open spec fn spec_local_base(cwd: Seq<char>) -> Seq<char> {
    join_seq(cwd, ".local"@)
}

impl LocalDirs {
    /// Whether this instance holds exactly the three children of `base`.
    pub open spec fn is_at(self, base: Seq<char>) -> bool {
        &&& self.spec_cache_dir() == join_seq(base, "cache"@)
        &&& self.spec_config_dir() == join_seq(base, "config"@)
        &&& self.spec_data_dir() == join_seq(base, "data"@)
    }

    /// Create an instance under `.local` in the given working directory.
    /// The caller hands in the working directory, or `None` when it could not
    /// be read or was not valid UTF-8; the result is absent in exactly that
    /// case.
    pub fn new(cwd: Option<String>) -> (r: Option<LocalDirs>)
        ensures
            r is Some <==> cwd is Some,
            cwd matches Some(c) ==> (r matches Some(d) && d.is_at(spec_local_base(c@))),
    {
        match cwd {
            None => None,
            Some(c) => {
                let base = join(c.as_str(), ".local");
                Some(Self::new_at(base.as_str()))
            },
        }
    }

    /// Create an instance at the given base directory; never fails.
    pub fn new_at(base: &str) -> (r: LocalDirs)
        ensures
            r.is_at(base@),
    {
        LocalDirs {
            cache_dir: join(base, "cache"),
            config_dir: join(base, "config"),
            data_dir: join(base, "data"),
        }
    }
}

impl Directories for LocalDirs {
    closed spec fn spec_cache_dir(&self) -> Seq<char> {
        self.cache_dir@
    }

    closed spec fn spec_config_dir(&self) -> Seq<char> {
        self.config_dir@
    }

    closed spec fn spec_data_dir(&self) -> Seq<char> {
        self.data_dir@
    }

    fn cache_dir(&self) -> (r: &str) {
        self.cache_dir.as_str()
    }

    fn config_dir(&self) -> (r: &str) {
        self.config_dir.as_str()
    }

    fn data_dir(&self) -> (r: &str) {
        self.data_dir.as_str()
    }
}

} // verus!
