use vstd::prelude::*;

use crate::local::{spec_local_base, LocalDirs};
use crate::service::{OsFamily, ServiceDirs};
use crate::simple::SimpleBuilder;
use crate::user::UserDirs;
use crate::Directories;

verus! {

/// A common interface over the three ways of constructing a directory
/// provider: a closed union holding exactly one of the layouts, with the
/// [`Directories`] accessors dispatched to the held variant.
#[derive(Clone, Debug, PartialEq, Eq, PartialOrd, Ord, Hash)]
pub enum UnifiedDirs {
    /// Local directories for development.
    Local(LocalDirs),
    /// Directories for applications run as a service.
    Service(ServiceDirs),
    /// Per-user application directories.
    User(UserDirs),
}

impl UnifiedDirs {
    /// Whether this value wraps a local layout rooted at `base`.
    pub open spec fn is_local_at(self, base: Seq<char>) -> bool {
        self matches UnifiedDirs::Local(d) && d.is_at(base)
    }

    /// Whether this value wraps the local layout that a working directory of
    /// `cwd` yields: the one rooted at `cwd`'s `.local` child.
    pub open spec fn is_local_for(self, cwd: Seq<char>) -> bool {
        self.is_local_at(spec_local_base(cwd))
    }

    /// Whether this value wraps the service layout for the given family and
    /// identity.
    pub open spec fn is_service_for(self, os: OsFamily, org: Seq<char>, app: Seq<char>) -> bool {
        self matches UnifiedDirs::Service(d) && d.is_for(os, org, app)
    }

    /// Shorthand for a local-layout backend under `.local` in the given
    /// working directory; absent exactly when the working directory is, that
    /// is, when the caller could not read it as UTF-8 text.
    pub fn local(cwd: Option<String>) -> (r: Option<UnifiedDirs>)
        ensures
            r is Some <==> cwd is Some,
            cwd matches Some(c) ==> (r matches Some(u) && u.is_local_for(c@)),
    {
        match LocalDirs::new(cwd) {
            None => None,
            Some(d) => Some(UnifiedDirs::Local(d)),
        }
    }

    /// Shorthand for a local-layout backend at a specific base directory;
    /// never fails.
    pub fn local_at(base: &str) -> (r: UnifiedDirs)
        ensures
            r.is_local_at(base@),
    {
        UnifiedDirs::Local(LocalDirs::new_at(base))
    }

    /// Shorthand for a service-layout backend; never fails.
    pub fn service(os: OsFamily, organization: &str, application: &str) -> (r: UnifiedDirs)
        ensures
            r.is_service_for(os, organization@, application@),
    {
        UnifiedDirs::Service(ServiceDirs::new(os, organization, application))
    }

    /// Shorthand for a user-layout backend; the platform decides whether the
    /// per-user directories resolve, and the failure is handed on as an absent
    /// result.
    pub fn user(qualifier: &str, organization: &str, application: &str) -> (r: Option<UnifiedDirs>)
        ensures
            r matches Some(u) ==> u is User,
    {
        match UserDirs::new(qualifier, organization, application) {
            None => None,
            Some(d) => Some(UnifiedDirs::User(d)),
        }
    }

    /// Create a builder that selects the backend through a chain of detection
    /// heuristics. `development` forces the local layout in [`SimpleBuilder::build`];
    /// `os` is the path-convention family a service backend would use.
    pub fn simple(
        development: bool,
        os: OsFamily,
        qualifier: &str,
        organization: &str,
        application: &str,
    ) -> (r: SimpleBuilder)
        ensures
            r.development == development,
            r.os == os,
            r.service == false,
            r.qualifier@ == qualifier@,
            r.organization@ == organization@,
            r.application@ == application@,
    {
        SimpleBuilder::new(development, os, qualifier, organization, application)
    }
}

/// The unified selector never alters the directories of the layout it wraps:
/// each accessor read through the wrapper equals the same accessor read on the
/// wrapped layout directly.
pub proof fn lemma_wrapper_preserves_dirs(l: LocalDirs, s: ServiceDirs, u: UserDirs)
    ensures
        UnifiedDirs::Local(l).spec_cache_dir() == l.spec_cache_dir(),
        UnifiedDirs::Local(l).spec_config_dir() == l.spec_config_dir(),
        UnifiedDirs::Local(l).spec_data_dir() == l.spec_data_dir(),
        UnifiedDirs::Service(s).spec_cache_dir() == s.spec_cache_dir(),
        UnifiedDirs::Service(s).spec_config_dir() == s.spec_config_dir(),
        UnifiedDirs::Service(s).spec_data_dir() == s.spec_data_dir(),
        UnifiedDirs::User(u).spec_cache_dir() == u.spec_cache_dir(),
        UnifiedDirs::User(u).spec_config_dir() == u.spec_config_dir(),
        UnifiedDirs::User(u).spec_data_dir() == u.spec_data_dir(),
{
}

impl Directories for UnifiedDirs {
    open spec fn spec_cache_dir(&self) -> Seq<char> {
        match self {
            UnifiedDirs::Local(d) => d.spec_cache_dir(),
            UnifiedDirs::Service(d) => d.spec_cache_dir(),
            UnifiedDirs::User(d) => d.spec_cache_dir(),
        }
    }

    open spec fn spec_config_dir(&self) -> Seq<char> {
        match self {
            UnifiedDirs::Local(d) => d.spec_config_dir(),
            UnifiedDirs::Service(d) => d.spec_config_dir(),
            UnifiedDirs::User(d) => d.spec_config_dir(),
        }
    }

    open spec fn spec_data_dir(&self) -> Seq<char> {
        match self {
            UnifiedDirs::Local(d) => d.spec_data_dir(),
            UnifiedDirs::Service(d) => d.spec_data_dir(),
            UnifiedDirs::User(d) => d.spec_data_dir(),
        }
    }

    fn cache_dir(&self) -> (r: &str) {
        match self {
            UnifiedDirs::Local(d) => d.cache_dir(),
            UnifiedDirs::Service(d) => d.cache_dir(),
            UnifiedDirs::User(d) => d.cache_dir(),
        }
    }

    fn config_dir(&self) -> (r: &str) {
        match self {
            UnifiedDirs::Local(d) => d.config_dir(),
            UnifiedDirs::Service(d) => d.config_dir(),
            UnifiedDirs::User(d) => d.config_dir(),
        }
    }

    fn data_dir(&self) -> (r: &str) {
        match self {
            UnifiedDirs::Local(d) => d.data_dir(),
            UnifiedDirs::Service(d) => d.data_dir(),
            UnifiedDirs::User(d) => d.data_dir(),
        }
    }
}

} // verus!
