//! One installable version of the managed tool: its name, its semantic
//! version, the on-disk paths derived from the root directory, the release
//! URL for the current platform, idempotent installation, and the choice of
//! binary to dispatch an invocation to.

use vstd::prelude::*;

use crate::fs::path_exists;
use crate::strutil::{has_prefix, join, join_spec, str_eq, strip_prefix, trim, trim_spec};

verus! {

#[verifier::external_type_specification]
#[verifier::external_body]
pub struct ExReqwestError(reqwest::Error);

#[verifier::external_type_specification]
#[verifier::external_body]
pub struct ExResponse(reqwest::blocking::Response);

#[verifier::external_type_specification]
#[verifier::external_body]
pub struct ExIoError(std::io::Error);

#[verifier::external_type_specification]
#[verifier::external_body]
#[verifier::reject_recursive_types(R)]
pub struct ExGzDecoder<R>(flate2::read::GzDecoder<R>);

/// Holds the tar reader over the decompressing response stream. The
/// declaration of tar::Archive itself is refused here: its type parameter
/// carries a std::io::Read bound, which the verifier does not know.
#[verifier::external_body]
struct ArchiveStream {
    inner: tar::Archive<flate2::read::GzDecoder<reqwest::blocking::Response>>,
}

/// A three-component semantic version, as far as the range rules read it.
#[derive(Clone, Copy, Debug)]
pub struct SemVer {
    pub major: u64,
    pub minor: u64,
    pub patch: u64,
}

/// Why a command failed, with what a caller needs to report it.
#[derive(Debug)]
pub enum VersionError {
    /// The name (after stripping the variant prefix) is not a semantic version.
    InvalidVersion { name: String },
    /// No release artifact exists for this OS/architecture in this range.
    UnsupportedPlatform { os: String, arch: String },
    /// The fetch failed: connection, or an error HTTP status.
    Network { cause: reqwest::Error },
    /// The gzip or tar stream was corrupt, or extraction could not write.
    Archive { source: std::io::Error },
    /// A pinned version has no local binary to dispatch to.
    NotInstalled { name: String },
}

/// What `install` decided to do.
#[derive(Debug)]
pub enum InstallPlan {
    AlreadyInstalled,
    Fetch { url: String },
}

/// What `install` did.
#[derive(Debug, PartialEq, Eq, Structural)]
pub enum InstallOutcome {
    AlreadyInstalled,
    Installed,
}

/// A name for what semver::Version::parse returns on given text: the parse
/// depends on the text alone.
pub uninterp spec fn parsed_triple(s: Seq<char>) -> Option<(u64, u64, u64)>;

/// Relies on semver::Version::parse: the major, minor and patch numbers of
/// the parsed version, or None when the text is not a valid semantic version.
#[verifier::external_body]
fn parse_semver(s: &str) -> (r: Option<(u64, u64, u64)>)
    ensures
        r == parsed_triple(s@),
{
    match semver::Version::parse(s) {
        Ok(v) => Some((v.major, v.minor, v.patch)),
        Err(_) => None,
    }
}

/// Relies on reqwest::blocking::get: one blocking HTTP GET of the URL.
/// Success and contents depend on the network, so nothing is promised.
#[verifier::external_body]
fn http_get(url: &str) -> (r: Result<reqwest::blocking::Response, reqwest::Error>) {
    reqwest::blocking::get(url)
}

/// Relies on reqwest::blocking::Response::error_for_status: Err for a client
/// or server error status, Ok with the response itself otherwise; which one
/// depends on the response.
#[verifier::external_body]
fn check_status(r: reqwest::blocking::Response) -> (s: Result<
    reqwest::blocking::Response,
    reqwest::Error,
>) {
    r.error_for_status()
}

/// Relies on flate2::read::GzDecoder::new: wraps the response in a stream
/// that decompresses it as gzip when read.
#[verifier::external_body]
fn gz_decoder(r: reqwest::blocking::Response) -> flate2::read::GzDecoder<
    reqwest::blocking::Response,
> {
    flate2::read::GzDecoder::new(r)
}

/// Relies on tar::Archive::new: wraps the stream as a tar archive reader.
#[verifier::external_body]
fn tar_archive(r: flate2::read::GzDecoder<reqwest::blocking::Response>) -> ArchiveStream {
    ArchiveStream { inner: tar::Archive::new(r) }
}

/// Relies on tar::Archive::unpack: reads the whole archive, decompressing as
/// it goes, and writes its entries under dst, creating directories as needed;
/// Err on a corrupt stream or a filesystem failure.
#[verifier::external_body]
fn tar_unpack(a: &mut ArchiveStream, dst: &str) -> (r: Result<(), std::io::Error>) {
    a.inner.unpack(dst)
}

/// Strictly before `maj.min.pat`, by lexicographic comparison of the three
/// components.
pub open spec fn sem_lt(a: SemVer, maj: u64, min: u64, pat: u64) -> bool {
    a.major < maj || (a.major == maj && (a.minor < min || (a.minor == min && a.patch < pat)))
}

/// At or before `b`, component by component.
pub open spec fn sem_le(a: SemVer, b: SemVer) -> bool {
    a.major < b.major || (a.major == b.major && (a.minor < b.minor || (a.minor == b.minor
        && a.patch <= b.patch)))
}

fn sem_lt_exec(a: &SemVer, maj: u64, min: u64, pat: u64) -> (r: bool)
    ensures
        r == sem_lt(*a, maj, min, pat),
{
    a.major < maj || (a.major == maj && (a.minor < min || (a.minor == min && a.patch < pat)))
}

/// The platform suffix of the release artifact's file name, per the ordered
/// range rules: below 0.102.0 a per-OS/architecture table; from there but
/// below 0.103.0 a macOS-only universal artifact; from 0.103.0 on the same
/// under its current "darwin" name. `None` means the platform has no artifact
/// in that range.
pub open spec fn suffix_spec(sem: SemVer, os: Seq<char>, arch: Seq<char>) -> Option<Seq<char>> {
    if sem_lt(sem, 0, 102, 0) {
        if os == "linux"@ && arch == "x86"@ {
            Some("Linux-32bit"@)
        } else if os == "linux"@ && arch == "x86_64"@ {
            Some("Linux-64bit"@)
        } else if os == "linux"@ && arch == "arm"@ {
            Some("Linux-ARM"@)
        } else if os == "linux"@ && arch == "aarch64"@ {
            Some("Linux-ARM64"@)
        } else if os == "macos"@ && arch == "x86_64"@ {
            Some("macOS-64bit"@)
        } else if os == "macos"@ && arch == "aarch64"@ {
            Some("macOS-ARM64"@)
        } else {
            None
        }
    } else if sem_lt(sem, 0, 103, 0) {
        if os == "macos"@ {
            Some("macOS-universal"@)
        } else {
            None
        }
    } else {
        if os == "macos"@ {
            Some("darwin-universal"@)
        } else {
            None
        }
    }
}

fn suffix_for(sem: &SemVer, os: &str, arch: &str) -> (r: Option<&'static str>)
    ensures
        r matches Some(s) ==> suffix_spec(*sem, os@, arch@) == Some(s@),
        r is None ==> suffix_spec(*sem, os@, arch@) is None,
{
    if sem_lt_exec(sem, 0, 102, 0) {
        let linux = str_eq(os, "linux");
        let macos = str_eq(os, "macos");
        if linux && str_eq(arch, "x86") {
            Some("Linux-32bit")
        } else if linux && str_eq(arch, "x86_64") {
            Some("Linux-64bit")
        } else if linux && str_eq(arch, "arm") {
            Some("Linux-ARM")
        } else if linux && str_eq(arch, "aarch64") {
            Some("Linux-ARM64")
        } else if macos && str_eq(arch, "x86_64") {
            Some("macOS-64bit")
        } else if macos && str_eq(arch, "aarch64") {
            Some("macOS-ARM64")
        } else {
            None
        }
    } else if sem_lt_exec(sem, 0, 103, 0) {
        if str_eq(os, "macos") {
            Some("macOS-universal")
        } else {
            None
        }
    } else {
        if str_eq(os, "macos") {
            Some("darwin-universal")
        } else {
            None
        }
    }
}

/// The name with its build-variant prefix removed, when it carries one.
pub open spec fn strip_extended_spec(s: Seq<char>) -> Seq<char> {
    if has_prefix(s, "extended_"@) {
        s.subrange("extended_"@.len() as int, s.len() as int)
    } else {
        s
    }
}

fn strip_extended(name: &str) -> (r: String)
    ensures
        r@ == strip_extended_spec(name@),
{
    match strip_prefix(name, "extended_") {
        Some(rest) => rest,
        None => String::from_str(name),
    }
}

/// The release URL: the tag carries the unprefixed semantic version, the file
/// name the full version name (variant prefix kept) and the platform suffix.
pub open spec fn url_spec(name: Seq<char>, suffix: Seq<char>) -> Seq<char> {
    "https://github.com/gohugoio/hugo/releases/download/v"@ + strip_extended_spec(name) + "/hugo_"@
        + name + "_"@ + suffix + ".tar.gz"@
}

/// The semantic version read from a version name: the sentinel "system" is
/// never parsed, and a name that does not parse carries none.
pub open spec fn sem_of_name(name: Seq<char>) -> Option<SemVer> {
    if name == "system"@ {
        None
    } else {
        match parsed_triple(strip_extended_spec(name)) {
            Some(t) => Some(SemVer { major: t.0, minor: t.1, patch: t.2 }),
            None => None,
        }
    }
}

/// The version name a pin resolves to: the pin file's contents trimmed of
/// surrounding whitespace, or the sentinel "system" when nothing is pinned.
pub open spec fn pin_name(pin: Option<Seq<char>>) -> Seq<char> {
    match pin {
        Some(c) => trim_spec(c),
        None => "system"@,
    }
}

pub struct Version {
    name: String,
    sem: Option<SemVer>,
    versions_dir: String,
    version_dir: String,
    bin_file: String,
}

impl Version {
    /// The raw version name.
    pub closed spec fn spec_name(self) -> Seq<char> {
        self.name@
    }

    /// The parsed semantic version, when the name carries one.
    pub closed spec fn spec_sem(self) -> Option<SemVer> {
        self.sem
    }

    /// `root/versions`, shared by all versions.
    pub closed spec fn spec_versions_dir(self) -> Seq<char> {
        self.versions_dir@
    }

    /// `root/versions/<name>`, exclusive to this version.
    pub closed spec fn spec_version_dir(self) -> Seq<char> {
        self.version_dir@
    }

    /// `root/versions/<name>/hugo`, whose existence alone means "installed".
    pub closed spec fn spec_bin_file(self) -> Seq<char> {
        self.bin_file@
    }

    /// All three paths hang off `root_dir` the same way for every name, the
    /// sentinel and unparsable names included; only the semantic version
    /// depends on what the name parses to.
    pub fn new(name: String, root_dir: &str) -> (r: Version)
        ensures
            r.spec_name() == name@,
            r.spec_sem() == sem_of_name(name@),
            r.spec_versions_dir() == join_spec(root_dir@, "versions"@),
            r.spec_version_dir() == join_spec(join_spec(root_dir@, "versions"@), name@),
            r.spec_bin_file() == join_spec(
                join_spec(join_spec(root_dir@, "versions"@), name@),
                "hugo"@,
            ),
    {
        let versions_dir = join(root_dir, "versions");
        let version_dir = join(versions_dir.as_str(), name.as_str());
        let bin_file = join(version_dir.as_str(), "hugo");
        let sem = if str_eq(name.as_str(), "system") {
            None
        } else {
            let stripped = strip_extended(name.as_str());
            match parse_semver(stripped.as_str()) {
                Some(t) => Some(SemVer { major: t.0, minor: t.1, patch: t.2 }),
                None => None,
            }
        };
        Version { name, sem, versions_dir, version_dir, bin_file }
    }

    /// The version a directory context pins: the trimmed contents of the pin
    /// file when one was found, the sentinel "system" otherwise.
    pub fn from_pin(pin: Option<String>, root_dir: &str) -> (r: Version)
        ensures
            r.spec_name() == pin_name(pin.deep_view()),
            r.spec_sem() == sem_of_name(pin_name(pin.deep_view())),
            r.spec_versions_dir() == join_spec(root_dir@, "versions"@),
            r.spec_version_dir() == join_spec(
                join_spec(root_dir@, "versions"@),
                pin_name(pin.deep_view()),
            ),
            r.spec_bin_file() == join_spec(
                join_spec(join_spec(root_dir@, "versions"@), pin_name(pin.deep_view())),
                "hugo"@,
            ),
    {
        let name = match pin {
            Some(c) => trim(c.as_str()),
            None => String::from_str("system"),
        };
        Version::new(name, root_dir)
    }

    pub fn name(&self) -> (r: &String)
        ensures
            r@ == self.spec_name(),
    {
        &self.name
    }

    pub fn bin_file(&self) -> (r: &String)
        ensures
            r@ == self.spec_bin_file(),
    {
        &self.bin_file
    }

    pub fn versions_dir(&self) -> (r: &String)
        ensures
            r@ == self.spec_versions_dir(),
    {
        &self.versions_dir
    }

    pub fn is_system(&self) -> (r: bool)
        ensures
            r == (self.spec_name() == "system"@),
    {
        str_eq(self.name.as_str(), "system")
    }

    /// Whether the binary file exists on disk right now; probed, never cached.
    pub fn is_installed(&self) -> bool {
        path_exists(self.bin_file.as_str())
    }

    /// The release URL for this version on the given platform: Ok exactly
    /// when the name parses and the range rules list the platform.
    pub fn download_url(&self, os: &str, arch: &str) -> (r: Result<String, VersionError>)
        ensures
            r is Ok <==> (self.spec_sem() matches Some(sem) && suffix_spec(sem, os@, arch@)
                is Some),
            r matches Ok(u) ==> (self.spec_sem() matches Some(sem) && suffix_spec(sem, os@, arch@)
                matches Some(sfx) && u@ == url_spec(self.spec_name(), sfx)),
            r matches Err(e) ==> (self.spec_sem() is None ==> (e matches VersionError::InvalidVersion {
                name,
            } && name@ == self.spec_name())),
            r matches Err(e) ==> (self.spec_sem() is Some ==> (e
                matches VersionError::UnsupportedPlatform { os: o, arch: a } && o@ == os@ && a@
                == arch@)),
    {
        let sem = match &self.sem {
            Some(s) => *s,
            None => {
                return Err(VersionError::InvalidVersion { name: self.name.clone() });
            },
        };
        let sfx = match suffix_for(&sem, os, arch) {
            Some(s) => s,
            None => {
                return Err(
                    VersionError::UnsupportedPlatform {
                        os: String::from_str(os),
                        arch: String::from_str(arch),
                    },
                );
            },
        };
        let unextended = strip_extended(self.name.as_str());
        let mut u = String::from_str("https://github.com/gohugoio/hugo/releases/download/v");
        u.append(unextended.as_str());
        u.append("/hugo_");
        u.append(self.name.as_str());
        u.append("_");
        u.append(sfx);
        u.append(".tar.gz");
        proof {
            assert(u@ =~= url_spec(self.spec_name(), suffix_spec(sem, os@, arch@)->0));
        }
        Ok(u)
    }

    /// What installing should do, given whether the binary is already there:
    /// an installed version is left alone, with no URL resolved and nothing
    /// fetched; otherwise the fetch of its release URL is called for.
    pub fn install_plan(&self, installed: bool, os: &str, arch: &str) -> (r: Result<
        InstallPlan,
        VersionError,
    >)
        ensures
            installed ==> (r matches Ok(p) && p is AlreadyInstalled),
            !installed ==> (r is Ok <==> (self.spec_sem() matches Some(sem) && suffix_spec(
                sem,
                os@,
                arch@,
            ) is Some)),
            !installed ==> (r matches Ok(p) ==> (p matches InstallPlan::Fetch { url }
                && self.spec_sem() matches Some(sem) && suffix_spec(sem, os@, arch@)
                matches Some(sfx) && url@ == url_spec(self.spec_name(), sfx))),
            r matches Err(e) ==> !installed,
            r matches Err(e) ==> (self.spec_sem() is None ==> (e matches VersionError::InvalidVersion {
                name,
            } && name@ == self.spec_name())),
            r matches Err(e) ==> (self.spec_sem() is Some ==> (e
                matches VersionError::UnsupportedPlatform { os: o, arch: a } && o@ == os@ && a@
                == arch@)),
    {
        if installed {
            Ok(InstallPlan::AlreadyInstalled)
        } else {
            match self.download_url(os, arch) {
                Ok(url) => Ok(InstallPlan::Fetch { url }),
                Err(e) => Err(e),
            }
        }
    }

    /// Fetches the URL and extracts the gzip-compressed tar archive it names
    /// into this version's directory.
    fn fetch_and_extract(&self, url: &str) -> (r: Result<(), VersionError>)
        ensures
            r matches Err(e) ==> (e is Network || e is Archive),
    {
        let resp = match http_get(url) {
            Ok(resp) => resp,
            Err(e) => {
                return Err(VersionError::Network { cause: e });
            },
        };
        let resp = match check_status(resp) {
            Ok(resp) => resp,
            Err(e) => {
                return Err(VersionError::Network { cause: e });
            },
        };
        let gz = gz_decoder(resp);
        let mut archive = tar_archive(gz);
        match tar_unpack(&mut archive, self.version_dir.as_str()) {
            Ok(_) => Ok(()),
            Err(e) => Err(VersionError::Archive { source: e }),
        }
    }

    /// Idempotent install: an already-installed version is reported as such
    /// and nothing is fetched; otherwise the release archive for the given
    /// platform is fetched and extracted, all in one attempt.
    pub fn install(&self, os: &str, arch: &str) -> (r: Result<InstallOutcome, VersionError>)
        ensures
            r matches Ok(o) ==> (o is Installed ==> (self.spec_sem() matches Some(sem)
                && suffix_spec(sem, os@, arch@) is Some)),
            r matches Err(e) ==> (e matches VersionError::InvalidVersion { name } ==> (name@
                == self.spec_name() && self.spec_sem() is None)),
            r matches Err(e) ==> (e matches VersionError::UnsupportedPlatform { os: o, arch: a }
                ==> (self.spec_sem() matches Some(sem) && o@ == os@ && a@ == arch@ && suffix_spec(
                sem,
                os@,
                arch@,
            ) is None)),
            r matches Err(e) ==> ((e is Network || e is Archive) ==> (self.spec_sem()
                matches Some(sem) && suffix_spec(sem, os@, arch@) is Some)),
    {
        let installed = self.is_installed();
        let plan = match self.install_plan(installed, os, arch) {
            Ok(p) => p,
            Err(e) => {
                return Err(e);
            },
        };
        match plan {
            InstallPlan::AlreadyInstalled => Ok(InstallOutcome::AlreadyInstalled),
            InstallPlan::Fetch { url } => {
                match self.fetch_and_extract(url.as_str()) {
                    Ok(_) => Ok(InstallOutcome::Installed),
                    Err(e) => Err(e),
                }
            },
        }
    }

    /// The binary an invocation should run, given whether this version is
    /// installed: the unmanaged name for the sentinel, this version's own
    /// binary when installed, and a fatal error — never a wrong binary — for
    /// a pinned version that is not installed.
    pub fn dispatch_plan(&self, installed: bool) -> (r: Result<String, VersionError>)
        ensures
            self.spec_name() == "system"@ ==> (r matches Ok(p) && p@ == "hugo"@),
            (self.spec_name() != "system"@ && installed) ==> (r matches Ok(p) && p@
                == self.spec_bin_file()),
            (self.spec_name() != "system"@ && !installed) ==> (r matches Err(e) && e
                matches VersionError::NotInstalled { name } && name@ == self.spec_name()),
    {
        if self.is_system() {
            Ok(String::from_str("hugo"))
        } else if installed {
            Ok(self.bin_file.clone())
        } else {
            Err(VersionError::NotInstalled { name: self.name.clone() })
        }
    }

    /// Chooses the binary for a real invocation. The sentinel never probes
    /// the managed versions directory; every other version is checked on disk
    /// and dispatching an uninstalled one fails.
    pub fn binary_to_run(&self) -> (r: Result<String, VersionError>)
        ensures
            self.spec_name() == "system"@ ==> (r matches Ok(p) && p@ == "hugo"@),
            self.spec_name() != "system"@ ==> (r matches Ok(p) ==> p@ == self.spec_bin_file()),
            r matches Err(e) ==> (e matches VersionError::NotInstalled { name } && name@
                == self.spec_name() && self.spec_name() != "system"@),
    {
        if self.is_system() {
            self.dispatch_plan(false)
        } else {
            let installed = self.is_installed();
            self.dispatch_plan(installed)
        }
    }
}

/// The three URL-naming ranges partition the versions, with each boundary
/// belonging to the later range: 0.102.0 itself takes the universal macOS
/// rule and 0.103.0 itself the darwin rule.
pub proof fn lemma_range_boundaries(sem: SemVer)
    ensures
        sem_lt(sem, 0, 102, 0) ==> sem_lt(sem, 0, 103, 0),
        sem == (SemVer { major: 0, minor: 102, patch: 0 }) ==> (!sem_lt(sem, 0, 102, 0) && sem_lt(
            sem,
            0,
            103,
            0,
        )),
        sem == (SemVer { major: 0, minor: 103, patch: 0 }) ==> !sem_lt(sem, 0, 103, 0),
{
}

/// Range selection is monotone in the version: a version at or below another
/// falls in the same range or an earlier one.
pub proof fn lemma_range_monotone(a: SemVer, b: SemVer)
    requires
        sem_le(a, b),
    ensures
        sem_lt(b, 0, 102, 0) ==> sem_lt(a, 0, 102, 0),
        sem_lt(b, 0, 103, 0) ==> sem_lt(a, 0, 103, 0),
{
}

} // verus!
