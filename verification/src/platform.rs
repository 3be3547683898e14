//! Platform identifiers and their descriptive metadata.
//!
//! A platform is described by a handful of informational strings. The host
//! machine reports which platforms are available and which one is
//! configured as the default; both are modeled here as plain records, so
//! every query below is a total function of the data it is given.

use vstd::prelude::*;
use vstd::string::StringExecFns;

verus! {

/// The informational record a platform identifier stands for.
#[derive(Debug)]
pub struct PlatformIdCore {
    /// The profile supported by the implementation.
    pub profile: String,
    /// The version string of the implementation.
    pub version: String,
    /// The platform name.
    pub name: String,
    /// The platform vendor.
    pub vendor: String,
    /// A space-separated list of supported extension names.
    pub extensions: String,
}

impl Clone for PlatformIdCore {
    fn clone(&self) -> (res: Self)
        ensures
            res == *self,
    {
        PlatformIdCore {
            profile: self.profile.clone(),
            version: self.version.clone(),
            name: self.name.clone(),
            vendor: self.vendor.clone(),
            extensions: self.extensions.clone(),
        }
    }
}

/// The kinds of information that can be requested about a platform.
#[derive(Clone, Copy, Debug, PartialEq, Eq, Structural)]
pub enum PlatformInfo {
    /// The supported profile.
    Profile,
    /// The version string.
    Version,
    /// The platform name.
    Name,
    /// The platform vendor.
    Vendor,
    /// The supported extensions.
    Extensions,
}

/// An answer to one information request, tagged with its kind.
#[derive(Debug)]
pub enum PlatformInfoResult {
    /// The supported profile.
    Profile(String),
    /// The version string.
    Version(String),
    /// The platform name.
    Name(String),
    /// The platform vendor.
    Vendor(String),
    /// The supported extensions.
    Extensions(String),
}

impl PlatformInfoResult {
    /// The string carried by the answer, whatever its kind.
    pub open spec fn string(self) -> Seq<char> {
        match self {
            PlatformInfoResult::Profile(s) => s@,
            PlatformInfoResult::Version(s) => s@,
            PlatformInfoResult::Name(s) => s@,
            PlatformInfoResult::Vendor(s) => s@,
            PlatformInfoResult::Extensions(s) => s@,
        }
    }

    /// Read access to the carried string.
    pub fn value(&self) -> (s: &String)
        ensures
            s@ == self.string(),
    {
        match self {
            PlatformInfoResult::Profile(s) => s,
            PlatformInfoResult::Version(s) => s,
            PlatformInfoResult::Name(s) => s,
            PlatformInfoResult::Vendor(s) => s,
            PlatformInfoResult::Extensions(s) => s,
        }
    }
}

/// What went wrong while selecting a platform from the host's report.
#[derive(Clone, Copy, Debug, PartialEq, Eq, Structural)]
pub enum PlatformError {
    /// The host reports no platform at all.
    NoPlatforms,
    /// The configured default index points past the end of the host's
    /// platform list.
    DefaultIndexOutOfRange,
}

/// What the host machine reports: the available platforms and the index of
/// the one configured as the default.
pub struct Host {
    platforms: Vec<PlatformIdCore>,
    default_idx: usize,
}

impl Host {
    /// The platforms the host reports, in order.
    pub closed spec fn platforms_spec(&self) -> Seq<PlatformIdCore> {
        self.platforms@
    }

    /// The configured default platform index.
    pub closed spec fn default_idx_spec(&self) -> int {
        self.default_idx as int
    }

    /// Describes a host reporting the given platforms, with the given
    /// configured default index.
    pub fn new(platforms: Vec<PlatformIdCore>, default_idx: usize) -> (h: Host)
        ensures
            h.platforms_spec() == platforms@,
            h.default_idx_spec() == default_idx as int,
    {
        Host { platforms, default_idx }
    }
}

/// A platform identifier.
#[derive(Debug)]
pub struct Platform(PlatformIdCore);

impl Clone for Platform {
    fn clone(&self) -> (res: Self)
        ensures
            res == *self,
    {
        Platform(self.0.clone())
    }
}

impl Platform {
    /// The record this identifier stands for.
    pub closed spec fn id_core(&self) -> PlatformIdCore {
        self.0
    }

    /// Returns a list of all platforms available on the given host.
    pub fn list(host: &Host) -> (r: Vec<Platform>)
        ensures
            r@.len() == host.platforms_spec().len(),
            forall|i: int|
                0 <= i < r@.len() ==> #[trigger] r@[i].id_core() == host.platforms_spec()[i],
    {
        Platform::list_from_core_ref(&host.platforms)
    }

    /// Returns the first available platform on the given host.
    ///
    /// If `ignore_env_var` is set, the configured default index is ignored
    /// and the platform at index 0 is returned; otherwise the configured
    /// default is returned. Either way, a host without platforms (or with a
    /// default index out of range) yields an error rather than a panic.
    pub fn first(host: &Host, ignore_env_var: bool) -> (r: Result<Platform, PlatformError>)
        ensures
            host.platforms_spec().len() == 0 ==> r == Err::<Platform, PlatformError>(
                PlatformError::NoPlatforms,
            ),
            host.platforms_spec().len() > 0 && ignore_env_var ==> (r matches Ok(p) && p.id_core()
                == host.platforms_spec()[0]),
            host.platforms_spec().len() > 0 && !ignore_env_var && host.default_idx_spec()
                < host.platforms_spec().len() ==> (r matches Ok(p) && p.id_core()
                == host.platforms_spec()[host.default_idx_spec()]),
            host.platforms_spec().len() > 0 && !ignore_env_var && host.default_idx_spec()
                >= host.platforms_spec().len() ==> r == Err::<Platform, PlatformError>(
                PlatformError::DefaultIndexOutOfRange,
            ),
    {
        if host.platforms.len() == 0 {
            Err(PlatformError::NoPlatforms)
        } else if ignore_env_var {
            Ok(Platform::new(host.platforms[0].clone()))
        } else if host.default_idx < host.platforms.len() {
            Ok(Platform::new(host.platforms[host.default_idx].clone()))
        } else {
            Err(PlatformError::DefaultIndexOutOfRange)
        }
    }

    /// Creates a new `Platform` from a `PlatformIdCore`.
    pub fn new(id_core: PlatformIdCore) -> (p: Platform)
        ensures
            p.id_core() == id_core,
    {
        Platform(id_core)
    }

    /// Returns a list of `Platform`s from a list of `PlatformIdCore`s.
    pub fn list_from_core(platforms: Vec<PlatformIdCore>) -> (r: Vec<Platform>)
        ensures
            r@.len() == platforms@.len(),
            forall|i: int| 0 <= i < r@.len() ==> #[trigger] r@[i].id_core() == platforms@[i],
    {
        Platform::list_from_core_ref(&platforms)
    }

    fn list_from_core_ref(platforms: &Vec<PlatformIdCore>) -> (r: Vec<Platform>)
        ensures
            r@.len() == platforms@.len(),
            forall|i: int| 0 <= i < r@.len() ==> #[trigger] r@[i].id_core() == platforms@[i],
    {
        let n = platforms.len();
        let mut out: Vec<Platform> = Vec::new();
        let mut i: usize = 0;
        while i < n
            invariant
                n == platforms@.len(),
                i <= n,
                out@.len() == i,
                forall|k: int| 0 <= k < i ==> #[trigger] out@[k].id_core() == platforms@[k],
            decreases n - i,
        {
            out.push(Platform::new(platforms[i].clone()));
            i = i + 1;
        }
        out
    }

    /// Returns info about the platform.
    pub fn info(&self, info_kind: PlatformInfo) -> (r: PlatformInfoResult)
        ensures
            match info_kind {
                PlatformInfo::Profile => r matches PlatformInfoResult::Profile(s) && s@
                    == self.id_core().profile@,
                PlatformInfo::Version => r matches PlatformInfoResult::Version(s) && s@
                    == self.id_core().version@,
                PlatformInfo::Name => r matches PlatformInfoResult::Name(s) && s@
                    == self.id_core().name@,
                PlatformInfo::Vendor => r matches PlatformInfoResult::Vendor(s) && s@
                    == self.id_core().vendor@,
                PlatformInfo::Extensions => r matches PlatformInfoResult::Extensions(s) && s@
                    == self.id_core().extensions@,
            },
    {
        match info_kind {
            PlatformInfo::Profile => PlatformInfoResult::Profile(self.0.profile.clone()),
            PlatformInfo::Version => PlatformInfoResult::Version(self.0.version.clone()),
            PlatformInfo::Name => PlatformInfoResult::Name(self.0.name.clone()),
            PlatformInfo::Vendor => PlatformInfoResult::Vendor(self.0.vendor.clone()),
            PlatformInfo::Extensions => PlatformInfoResult::Extensions(self.0.extensions.clone()),
        }
    }

    /// Returns the platform profile as a string.
    pub fn profile(&self) -> (r: String)
        ensures
            r@ == self.id_core().profile@,
    {
        self.0.profile.clone()
    }

    /// Returns the platform version as a string.
    pub fn version(&self) -> (r: String)
        ensures
            r@ == self.id_core().version@,
    {
        self.0.version.clone()
    }

    /// Returns the platform name as a string.
    pub fn name(&self) -> (r: String)
        ensures
            r@ == self.id_core().name@,
    {
        self.0.name.clone()
    }

    /// Returns the platform vendor as a string.
    pub fn vendor(&self) -> (r: String)
        ensures
            r@ == self.id_core().vendor@,
    {
        self.0.vendor.clone()
    }

    /// Returns the list of platform extensions as a string.
    pub fn extensions(&self) -> (r: String)
        ensures
            r@ == self.id_core().extensions@,
    {
        self.0.extensions.clone()
    }

    /// Returns a reference to the underlying `PlatformIdCore`.
    pub fn as_core(&self) -> (r: &PlatformIdCore)
        ensures
            *r == self.id_core(),
    {
        &self.0
    }

    /// Renders the whole informational record as one string.
    pub fn fmt_info(&self) -> (r: String)
        ensures
            r@ == "Platform { Profile: "@ + self.id_core().profile@ + ", Version: "@
                + self.id_core().version@ + ", Name: "@ + self.id_core().name@ + ", Vendor: "@
                + self.id_core().vendor@ + ", Extensions: "@ + self.id_core().extensions@ + " }"@,
    {
        let mut s = String::from_str("Platform { Profile: ");
        s.append(self.0.profile.as_str());
        s.append(", Version: ");
        s.append(self.0.version.as_str());
        s.append(", Name: ");
        s.append(self.0.name.as_str());
        s.append(", Vendor: ");
        s.append(self.0.vendor.as_str());
        s.append(", Extensions: ");
        s.append(self.0.extensions.as_str());
        s.append(" }");
        proof {
            assert(s@ =~= "Platform { Profile: "@ + self.id_core().profile@ + ", Version: "@
                + self.id_core().version@ + ", Name: "@ + self.id_core().name@ + ", Vendor: "@
                + self.id_core().vendor@ + ", Extensions: "@ + self.id_core().extensions@
                + " }"@);
        }
        s
    }
}

} // verus!
