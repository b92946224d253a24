use vstd::prelude::*;

verus! {

/// Relies on directories::ProjectDirs::from and its cache_dir, config_dir and
/// data_dir accessors: resolves the OS-convention per-user project directories
/// for the given identity, returning None when no home directory can be
/// determined for the current user, and None as well when a resolved path is
/// not valid UTF-8. The paths depend on the machine and its environment, so
/// nothing is stated of their values.
#[verifier::external_body]
pub(crate) fn resolve_user_dirs(qualifier: &str, organization: &str, application: &str) -> (r:
    Option<(String, String, String)>) {
    let dirs = directories::ProjectDirs::from(qualifier, organization, application)?;
    let cache = dirs.cache_dir().to_str()?.to_owned();
    let config = dirs.config_dir().to_str()?.to_owned();
    let data = dirs.data_dir().to_str()?.to_owned();
    Some((cache, config, data))
}

/// Relies on whoami::username: the current account's name, or None when it
/// cannot be determined or is not valid UTF-8. The value depends on the
/// machine and session, so nothing is stated of it.
#[verifier::external_body]
pub(crate) fn current_username() -> (r: Option<String>) {
    whoami::username().ok()
}

} // verus!
