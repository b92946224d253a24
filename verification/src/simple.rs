use vstd::prelude::*;
use vstd::string::StringExecFns;

use crate::platform::current_username;
use crate::service::OsFamily;
use crate::unified::UnifiedDirs;

verus! {

/// Whether an environment variable name signals service mode: the reserved
/// names are `SERVICE` and `DAEMON`, and only their presence matters.
pub open spec fn is_service_env_name(name: Seq<char>) -> bool {
    name == "SERVICE"@ || name == "DAEMON"@
}

/// Whether any of the given environment variable names signals service mode.
pub open spec fn has_service_env(names: Seq<String>) -> bool {
    exists|i: int| 0 <= i < names.len() && is_service_env_name(names[i]@)
}

/// Whether an invocation argument signals service mode: the reserved tokens
/// are `--service` and `--daemon`.
pub open spec fn is_service_arg(arg: Seq<char>) -> bool {
    arg == "--service"@ || arg == "--daemon"@
}

/// Whether any of the given invocation arguments signals service mode.
pub open spec fn has_service_arg(args: Seq<String>) -> bool {
    exists|i: int| 0 <= i < args.len() && is_service_arg(args[i]@)
}

/// A builder that decides between the service and user layouts through an
/// ordered chain of boolean heuristics, with a development override that
/// forces the local layout.
///
/// [`with`](Self::with) and the `with_*` functions evaluate immediately and in
/// call order; once one of them has detected service mode, the later ones in
/// the chain evaluate nothing further. The terminal [`build`](Self::build)
/// consumes the builder.
pub struct SimpleBuilder {
    /// Development override: `build` then always selects the local layout.
    pub development: bool,
    /// The path-convention family a service backend would use.
    pub os: OsFamily,
    /// Running result of the heuristics: whether service mode was detected.
    pub service: bool,
    /// Reverse-domain identity segment, consumed by the user layout.
    pub qualifier: String,
    /// Vendor identity segment.
    pub organization: String,
    /// The application's name.
    pub application: String,
}

impl SimpleBuilder {
    /// Whether `other` carries the same configuration as `self`: everything
    /// but the detection flag is unchanged.
    pub open spec fn keeps_identity(self, other: SimpleBuilder) -> bool {
        &&& other.development == self.development
        &&& other.os == self.os
        &&& other.qualifier@ == self.qualifier@
        &&& other.organization@ == self.organization@
        &&& other.application@ == self.application@
    }

    /// Create a builder with no heuristic run yet.
    pub fn new(
        development: bool,
        os: OsFamily,
        qualifier: &str,
        organization: &str,
        application: &str,
    ) -> (r: SimpleBuilder)
        ensures
            r.development == development,
            r.os == os,
            r.service == false,
            r.qualifier@ == qualifier@,
            r.organization@ == organization@,
            r.application@ == application@,
    {
        SimpleBuilder {
            development,
            os,
            service: false,
            qualifier: qualifier.to_owned(),
            organization: organization.to_owned(),
            application: application.to_owned(),
        }
    }

    /// Run a custom detection heuristic: a positive answer means service mode.
    ///
    /// The heuristic is evaluated only if no earlier technique has detected
    /// service mode yet; once the flag is set, the builder passes through
    /// unchanged and `f` is never invoked.
    pub fn with<F: FnOnce(&SimpleBuilder) -> bool>(self, f: F) -> (r: SimpleBuilder)
        requires
            !self.service ==> call_requires(f, (&self,)),
        ensures
            self.keeps_identity(r),
            self.service ==> r == self,
            self.service ==> r.service,
            !self.service ==> call_ensures(f, (&self,), r.service),
    {
        if self.service {
            self
        } else {
            let flag = f(&self);
            SimpleBuilder { service: flag, ..self }
        }
    }

    /// Detect service mode from the presence of a reserved environment
    /// variable name among `env_names`, the caller's enumeration of the
    /// process environment. The variables' values do not matter.
    pub fn with_env(self, env_names: &Vec<String>) -> (r: SimpleBuilder)
        ensures
            self.keeps_identity(r),
            self.service ==> r == self,
            r.service == (self.service || has_service_env(env_names@)),
    {
        if self.service {
            self
        } else {
            let flag = contains_service_env(env_names);
            SimpleBuilder { service: flag, ..self }
        }
    }

    /// Detect service mode from the presence of a reserved token among `args`,
    /// the caller's enumeration of the process invocation arguments.
    pub fn with_args(self, args: &Vec<String>) -> (r: SimpleBuilder)
        ensures
            self.keeps_identity(r),
            self.service ==> r == self,
            r.service == (self.service || has_service_arg(args@)),
    {
        if self.service {
            self
        } else {
            let flag = contains_service_arg(args);
            SimpleBuilder { service: flag, ..self }
        }
    }

    /// Apply the account-name detection rule to an account name given as a
    /// value: service mode is detected exactly when the name equals the
    /// configured application name, exactly and case-sensitively, with no
    /// normalization. An undeterminable account name (`None`) means no
    /// detection.
    pub fn apply_username(self, name: Option<String>) -> (r: SimpleBuilder)
        ensures
            self.keeps_identity(r),
            self.service ==> r == self,
            r.service == (self.service || (name matches Some(n) && n@ == self.application@)),
    {
        if self.service {
            self
        } else {
            let flag = match name {
                Some(n) => n == self.application,
                None => false,
            };
            SimpleBuilder { service: flag, ..self }
        }
    }

    /// Detect service mode by comparing the current account's name against the
    /// configured application name: the rule of [`apply_username`](Self::apply_username),
    /// applied to the name the machine reports. Which name that is cannot be
    /// pinned down here. The lookup is skipped once service mode is already
    /// detected.
    pub fn with_username(self) -> (r: SimpleBuilder)
        ensures
            self.keeps_identity(r),
            self.service ==> r == self,
            self.service ==> r.service,
    {
        if self.service {
            self
        } else {
            let name = current_username();
            self.apply_username(name)
        }
    }

    /// Construct the [`UnifiedDirs`] instance with the backend the configured
    /// techniques decided:
    ///
    /// - in a development configuration, always the local layout, whatever the
    ///   detection flag says, rooted under `.local` in `cwd` (the working
    ///   directory as the caller read it); absent exactly when `cwd` is;
    /// - otherwise the service layout if service mode was detected (never
    ///   fails);
    /// - otherwise the user layout, absent when the platform cannot resolve
    ///   the per-user directories.
    pub fn build(self, cwd: Option<String>) -> (r: Option<UnifiedDirs>)
        ensures
            self.development ==> ((r is Some) <==> (cwd is Some)),
            self.development ==> (cwd matches Some(c) ==> (r matches Some(u) && u.is_local_for(
                c@,
            ))),
            (!self.development && self.service) ==> (r matches Some(u) && u.is_service_for(
                self.os,
                self.organization@,
                self.application@,
            )),
            (!self.development && !self.service) ==> (r is None || (r matches Some(u)
                && u is User)),
            !self.development ==> !(r matches Some(u) && u is Local),
    {
        if self.development {
            UnifiedDirs::local(cwd)
        } else if self.service {
            Some(
                UnifiedDirs::service(self.os, self.organization.as_str(), self.application.as_str()),
            )
        } else {
            UnifiedDirs::user(
                self.qualifier.as_str(),
                self.organization.as_str(),
                self.application.as_str(),
            )
        }
    }

    /// Configure and run the builder with every detection technique enabled,
    /// in the fixed priority order: environment variables first, then
    /// invocation arguments, then the account name. Because each technique
    /// short-circuits, only as many of the three run as are needed to find the
    /// first positive signal; in particular, a signal in `env_names` or `args`
    /// decides service mode before the account name is ever looked up.
    pub fn default(self, env_names: &Vec<String>, args: &Vec<String>, cwd: Option<String>) -> (r:
        Option<UnifiedDirs>)
        ensures
            self.development ==> ((r is Some) <==> (cwd is Some)),
            self.development ==> (cwd matches Some(c) ==> (r matches Some(u) && u.is_local_for(
                c@,
            ))),
            (!self.development && (self.service || has_service_env(env_names@) || has_service_arg(
                args@,
            ))) ==> (r matches Some(u) && u.is_service_for(
                self.os,
                self.organization@,
                self.application@,
            )),
            (!self.development && !self.service && !has_service_env(env_names@)
                && !has_service_arg(args@)) ==> (r is None || (r matches Some(u)
                && (u.is_service_for(self.os, self.organization@, self.application@)
                || u is User))),
            !self.development ==> !(r matches Some(u) && u is Local),
    {
        self.with_env(env_names).with_args(args).with_username().build(cwd)
    }
}

/// Scan environment variable names for the reserved service-mode names.
fn contains_service_env(names: &Vec<String>) -> (r: bool)
    ensures
        r == has_service_env(names@),
{
    let service = String::from_str("SERVICE");
    let daemon = String::from_str("DAEMON");
    let mut i: usize = 0;
    while i < names.len()
        invariant
            0 <= i <= names@.len(),
            service@ == "SERVICE"@,
            daemon@ == "DAEMON"@,
            forall|j: int| 0 <= j < i ==> !is_service_env_name(names@[j]@),
        decreases names@.len() - i,
    {
        if names[i] == service || names[i] == daemon {
            assert(is_service_env_name(names@[i as int]@));
            return true;
        }
        i += 1;
    }
    false
}

/// Scan invocation arguments for the reserved service-mode tokens.
fn contains_service_arg(args: &Vec<String>) -> (r: bool)
    ensures
        r == has_service_arg(args@),
{
    let service = String::from_str("--service");
    let daemon = String::from_str("--daemon");
    let mut i: usize = 0;
    while i < args.len()
        invariant
            0 <= i <= args@.len(),
            service@ == "--service"@,
            daemon@ == "--daemon"@,
            forall|j: int| 0 <= j < i ==> !is_service_arg(args@[j]@),
        decreases args@.len() - i,
    {
        if args[i] == service || args[i] == daemon {
            assert(is_service_arg(args@[i as int]@));
            return true;
        }
        i += 1;
    }
    false
}

} // verus!
