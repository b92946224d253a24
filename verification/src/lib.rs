//! Standard application directories (cache, config, data) for three ways an
//! application can be deployed: during local development, as a system service,
//! or as a per-user application.
//!
//! Each deployment mode has its own layout type ([`LocalDirs`], [`ServiceDirs`],
//! [`UserDirs`]); [`UnifiedDirs`] wraps exactly one of them behind the common
//! [`Directories`] interface, and [`SimpleBuilder`] picks the mode through an
//! ordered, short-circuiting chain of heuristics.

use vstd::prelude::*;

mod local;
mod path;
mod platform;
mod service;
mod simple;
mod unified;
mod user;

pub use crate::local::spec_local_base;
pub use crate::local::LocalDirs;
pub use crate::path::join;
pub use crate::path::join_seq;
pub use crate::service::spec_service_cache_dir;
pub use crate::service::spec_service_config_dir;
pub use crate::service::spec_service_data_dir;
pub use crate::service::OsFamily;
pub use crate::service::ServiceDirs;
pub use crate::simple::has_service_arg;
pub use crate::simple::has_service_env;
pub use crate::simple::is_service_arg;
pub use crate::simple::is_service_env_name;
pub use crate::simple::SimpleBuilder;
pub use crate::unified::lemma_wrapper_preserves_dirs;
pub use crate::unified::UnifiedDirs;
pub use crate::user::UserDirs;

verus! {

/// Common directories that are provided by all layout types. Callers that only
/// need the directories, not the deployment mode, should depend on this
/// capability alone.
///
/// The three paths of one instance are pure functions of its construction
/// inputs and never change afterwards.
pub trait Directories {
    /// The cache directory's path, for contracts.
    spec fn spec_cache_dir(&self) -> Seq<char>;

    /// The config directory's path, for contracts.
    spec fn spec_config_dir(&self) -> Seq<char>;

    /// The data directory's path, for contracts.
    spec fn spec_data_dir(&self) -> Seq<char>;

    /// A location for temporary data the application must be able to lose.
    fn cache_dir(&self) -> (r: &str)
        ensures
            r@ == self.spec_cache_dir(),
    ;

    /// Where the application's settings are stored.
    fn config_dir(&self) -> (r: &str)
        ensures
            r@ == self.spec_config_dir(),
    ;

    /// Where the application's state data lives.
    fn data_dir(&self) -> (r: &str)
        ensures
            r@ == self.spec_data_dir(),
    ;
}

} // verus!
