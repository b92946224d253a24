use vstd::prelude::*;
use vstd::string::StringExecFns;

use crate::Directories;

verus! {

/// The two path-convention families a service layout can target. Passing the
/// family explicitly lets one build compute the conventions of either family,
/// instead of fixing one per compiled artifact.
#[derive(Clone, Copy, Debug, PartialEq, Eq, Structural)]
pub enum OsFamily {
    /// Linux, Mac OS and other Unix-like systems.
    Unix,
    /// Windows-like systems.
    Windows,
}

/// The application-data root of the Windows network-service profile.
pub open spec fn spec_windows_app_data() -> Seq<char> {
    "C:\\Windows\\ServiceProfiles\\NetworkService\\AppData"@
}

/// The service cache directory: `/var/cache/<app>` on the Unix family,
/// `<AppData>\Local\<org>/<app>\cache` on the Windows family.
pub open spec fn spec_service_cache_dir(os: OsFamily, org: Seq<char>, app: Seq<char>) -> Seq<char> {
    match os {
        OsFamily::Unix => "/var/cache/"@ + app,
        OsFamily::Windows => spec_windows_app_data() + "\\Local\\"@ + org + "/"@ + app
            + "\\cache"@,
    }
}

/// The service config directory: `/etc/<app>` on the Unix family,
/// `<AppData>\Roaming\<org>/<app>\config` on the Windows family.
pub open spec fn spec_service_config_dir(os: OsFamily, org: Seq<char>, app: Seq<char>) -> Seq<
    char,
> {
    match os {
        OsFamily::Unix => "/etc/"@ + app,
        OsFamily::Windows => spec_windows_app_data() + "\\Roaming\\"@ + org + "/"@ + app
            + "\\config"@,
    }
}

/// The service data directory: `/var/lib/<app>` on the Unix family,
/// `<AppData>\Roaming\<org>/<app>\data` on the Windows family.
pub open spec fn spec_service_data_dir(os: OsFamily, org: Seq<char>, app: Seq<char>) -> Seq<char> {
    match os {
        OsFamily::Unix => "/var/lib/"@ + app,
        OsFamily::Windows => spec_windows_app_data() + "\\Roaming\\"@ + org + "/"@ + app
            + "\\data"@,
    }
}

/// Directories for applications run as a service (often called a daemon),
/// close to the system rather than inside a user's home directory.
///
/// The organization is only consumed by the Windows family: Unix service
/// conventions are application-name-only.
#[derive(Clone, Debug, PartialEq, Eq, PartialOrd, Ord, Hash)]
pub struct ServiceDirs {
    cache_dir: String,
    config_dir: String,
    data_dir: String,
}

impl ServiceDirs {
    /// Whether this instance holds exactly the templated service paths for
    /// the given family and identity.
    pub open spec fn is_for(self, os: OsFamily, org: Seq<char>, app: Seq<char>) -> bool {
        &&& self.spec_cache_dir() == spec_service_cache_dir(os, org, app)
        &&& self.spec_config_dir() == spec_service_config_dir(os, org, app)
        &&& self.spec_data_dir() == spec_service_data_dir(os, org, app)
    }

    /// Create a new instance for the given path-convention family,
    /// organization and application name; never fails. The identity strings
    /// are not validated and propagate into the paths as given.
    pub fn new(os: OsFamily, organization: &str, application: &str) -> (r: ServiceDirs)
        ensures
            r.is_for(os, organization@, application@),
    {
        match os {
            OsFamily::Unix => {
                let mut cache = String::from_str("/var/cache/");
                cache.append(application);
                let mut config = String::from_str("/etc/");
                config.append(application);
                let mut data = String::from_str("/var/lib/");
                data.append(application);
                ServiceDirs { cache_dir: cache, config_dir: config, data_dir: data }
            },
            OsFamily::Windows => {
                let cache = Self::windows_profile_dir("\\Local\\", organization, application, "\\cache");
                let config = Self::windows_profile_dir(
                    "\\Roaming\\",
                    organization,
                    application,
                    "\\config",
                );
                let data = Self::windows_profile_dir("\\Roaming\\", organization, application, "\\data");
                ServiceDirs { cache_dir: cache, config_dir: config, data_dir: data }
            },
        }
    }

    /// One Windows-family service path:
    /// `<AppData><scope><org>/<app><leaf>`.
    fn windows_profile_dir(scope: &str, organization: &str, application: &str, leaf: &str) -> (r:
        String)
        ensures
            r@ == spec_windows_app_data() + scope@ + organization@ + "/"@ + application@ + leaf@,
    {
        let mut r = String::from_str("C:\\Windows\\ServiceProfiles\\NetworkService\\AppData");
        r.append(scope);
        r.append(organization);
        r.append("/");
        r.append(application);
        r.append(leaf);
        r
    }
}

impl Directories for ServiceDirs {
    closed spec fn spec_cache_dir(&self) -> Seq<char> {
        self.cache_dir@
    }

    closed spec fn spec_config_dir(&self) -> Seq<char> {
        self.config_dir@
    }

    closed spec fn spec_data_dir(&self) -> Seq<char> {
        self.data_dir@
    }

    fn cache_dir(&self) -> (r: &str) {
        self.cache_dir.as_str()
    }

    fn config_dir(&self) -> (r: &str) {
        self.config_dir.as_str()
    }

    fn data_dir(&self) -> (r: &str) {
        self.data_dir.as_str()
    }
}

} // verus!
