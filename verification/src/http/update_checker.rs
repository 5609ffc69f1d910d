//! GitHub Releases-based update checking

use vstd::prelude::*;

verus! {

/// Where the latest release is described
pub const UPDATE_CHECK_URI: &'static str = "https://api.github.com/repos/zkxs/jinx/releases/latest";

/// Version information for a GitHub release.
#[derive(Debug)]
pub struct RemoteVersion {
    pub url: String,
    pub version: String,
}

/// A link to a release.
pub open spec fn release_link(remote: RemoteVersion) -> Seq<char> {
    "["@ + remote.version@ + "](<"@ + remote.url@ + ">)"@
}

impl RemoteVersion {
    /// A link to this release
    pub fn describe(&self) -> (r: String)
        ensures
            r@ == release_link(*self),
    {
        "[".to_owned().concat(self.version.as_str()).concat("](<").concat(self.url.as_str()).concat(">)")
    }
}

/// Status of our code version
#[derive(Debug)]
pub enum VersionCheck {
    Outdated(RemoteVersion),
    Current,
    Future(RemoteVersion),
    BadLocal(RemoteVersion),
    BadRemote(RemoteVersion),
    UnknownRemote,
}

/// What is said of the status of our code version.
pub open spec fn version_check_text(check: VersionCheck) -> Seq<char> {
    match check {
        VersionCheck::Outdated(remote) => "jinx is outdated! The bot owner should upgrade to "@ + release_link(remote)
            + "."@,
        VersionCheck::Current => "jinx is up-to-date!"@,
        VersionCheck::Future(remote) => "jinx is somehow ahead of the version on GitHub ("@ + release_link(remote)
            + "). If you're not beta testing a pre-release then something is wrong."@,
        VersionCheck::BadLocal(remote) =>
            "jinx local version is not semver-compatible, so could not be compared to the version on GitHub ("@
            + release_link(remote) + ")."@,
        VersionCheck::BadRemote(remote) => "jinx version on GitHub ("@ + release_link(remote)
            + ") is not semver-compatible, so could not be compared to the currently running version."@,
        VersionCheck::UnknownRemote =>
            "Unable to retrieve version from GitHub. This means we cannot determine if jinx is outdated."@,
    }
}

impl VersionCheck {
    /// should this version check result be warned about?
    pub fn is_warn(&self) -> (r: bool)
        ensures
            r <==> *self is Outdated,
    {
        matches!(self, VersionCheck::Outdated(_))
    }

    /// should this version check result be errored about?
    pub fn is_error(&self) -> (r: bool)
        ensures
            r <==> (*self is Future || *self is UnknownRemote || *self is BadLocal || *self is BadRemote),
    {
        matches!(
            self,
            VersionCheck::Future(_) | VersionCheck::UnknownRemote | VersionCheck::BadLocal(_) | VersionCheck::BadRemote(
                _,
            )
        )
    }

    /// What is said of this status
    pub fn describe(&self) -> (r: String)
        ensures
            r@ == version_check_text(*self),
    {
        match self {
            VersionCheck::Outdated(remote) => "jinx is outdated! The bot owner should upgrade to ".to_owned().concat(
                remote.describe().as_str(),
            ).concat("."),
            VersionCheck::Current => "jinx is up-to-date!".to_owned(),
            VersionCheck::Future(remote) => "jinx is somehow ahead of the version on GitHub (".to_owned().concat(
                remote.describe().as_str(),
            ).concat("). If you're not beta testing a pre-release then something is wrong."),
            VersionCheck::BadLocal(remote) =>
                "jinx local version is not semver-compatible, so could not be compared to the version on GitHub (".to_owned().concat(
                remote.describe().as_str(),
            ).concat(")."),
            VersionCheck::BadRemote(remote) => "jinx version on GitHub (".to_owned().concat(
                remote.describe().as_str(),
            ).concat(") is not semver-compatible, so could not be compared to the currently running version."),
            VersionCheck::UnknownRemote =>
                "Unable to retrieve version from GitHub. This means we cannot determine if jinx is outdated.".to_owned(),
        }
    }
}

/// How a version relates to another one
#[derive(Debug, Copy, Clone, PartialEq, Eq, Structural)]
pub enum VersionOrder {
    Older,
    Same,
    Newer,
}

/// The parts of a semantic version
#[derive(Debug)]
pub struct SemanticVersion {
    pub major: u64,
    pub minor: u64,
    pub patch: u64,
    pub pre: String,
    pub build: String,
}

/// What a [`SemanticVersion`] stands for.
pub struct SemanticVersionView {
    pub major: u64,
    pub minor: u64,
    pub patch: u64,
    pub pre: Seq<char>,
    pub build: Seq<char>,
}

impl View for SemanticVersion {
    type V = SemanticVersionView;

    open spec fn view(&self) -> SemanticVersionView {
        SemanticVersionView {
            major: self.major,
            minor: self.minor,
            patch: self.patch,
            pre: self.pre@,
            build: self.build@,
        }
    }
}

/// What `semver::Version::parse` reads out of a text, if the text is a semantic version.
pub uninterp spec fn semantic_version(text: Seq<char>) -> Option<SemanticVersionView>;

/// How `semver` orders versions of the same numbers, by their pre-release identifiers and build metadata.
pub uninterp spec fn suffix_order(
    pre: Seq<char>,
    build: Seq<char>,
    other_pre: Seq<char>,
    other_build: Seq<char>,
) -> VersionOrder;

/// How a version relates to another one: the numbers count first, and then the rest.
pub open spec fn version_order(a: SemanticVersionView, b: SemanticVersionView) -> VersionOrder {
    if a.major != b.major {
        if a.major < b.major {
            VersionOrder::Older
        } else {
            VersionOrder::Newer
        }
    } else if a.minor != b.minor {
        if a.minor < b.minor {
            VersionOrder::Older
        } else {
            VersionOrder::Newer
        }
    } else if a.patch != b.patch {
        if a.patch < b.patch {
            VersionOrder::Older
        } else {
            VersionOrder::Newer
        }
    } else if a.pre == b.pre && a.build == b.build {
        VersionOrder::Same
    } else {
        suffix_order(a.pre, a.build, b.pre, b.build)
    }
}

/// Parses a text with `semver::Version::parse`.
#[verifier::external_body]
fn parse_version(text: &str) -> (r: Option<SemanticVersion>)
    ensures
        r is Some <==> semantic_version(text@) is Some,
        r matches Some(version) ==> semantic_version(text@) == Some(version@),
{
    let version = semver::Version::parse(text).ok()?;
    Some(SemanticVersion {
        major: version.major,
        minor: version.minor,
        patch: version.patch,
        pre: version.pre.to_string(),
        build: version.build.to_string(),
    })
}

/// Compares two versions with the order of `semver::Version`: by the three numbers, and then by the pre-release
/// identifiers and the build metadata. Both have to be parts that `semver` has read, else they would not be valid.
#[verifier::external_body]
fn compare_versions(a: &SemanticVersion, b: &SemanticVersion) -> (r: VersionOrder)
    requires
        exists|text: Seq<char>| semantic_version(text) == Some(a@),
        exists|text: Seq<char>| semantic_version(text) == Some(b@),
    ensures
        r == version_order(a@, b@),
        a.major == b.major && a.minor == b.minor && a.patch == b.patch && !(a.pre@ == b.pre@ && a.build@ == b.build@)
            ==> r == suffix_order(a.pre@, a.build@, b.pre@, b.build@),
{
    let mut left = semver::Version::new(a.major, a.minor, a.patch);
    left.pre = semver::Prerelease::new(&a.pre).expect("was read from a version");
    left.build = semver::BuildMetadata::new(&a.build).expect("was read from a version");
    let mut right = semver::Version::new(b.major, b.minor, b.patch);
    right.pre = semver::Prerelease::new(&b.pre).expect("was read from a version");
    right.build = semver::BuildMetadata::new(&b.build).expect("was read from a version");
    match left.cmp(&right) {
        std::cmp::Ordering::Less => VersionOrder::Older,
        std::cmp::Ordering::Equal => VersionOrder::Same,
        std::cmp::Ordering::Greater => VersionOrder::Newer,
    }
}

/// What follows from how the latest release relates to the running version.
pub open spec fn check_of(remote: RemoteVersion, order: VersionOrder) -> VersionCheck {
    match order {
        VersionOrder::Newer => VersionCheck::Outdated(remote),
        VersionOrder::Older => VersionCheck::Future(remote),
        VersionOrder::Same => VersionCheck::Current,
    }
}

/// What follows from how the latest release relates to the running version
pub fn check_from_order(remote: RemoteVersion, order: VersionOrder) -> (r: VersionCheck)
    ensures
        r == check_of(remote, order),
{
    match order {
        // we are behind
        VersionOrder::Newer => VersionCheck::Outdated(remote),
        // we are NEWER than remote
        VersionOrder::Older => VersionCheck::Future(remote),
        // we are up-to-date
        VersionOrder::Same => VersionCheck::Current,
    }
}

/// Compare the local version to the latest GitHub release, if there is an answer from GitHub.
pub fn check_for_update(local_version: &str, latest_release: Option<RemoteVersion>) -> (r: VersionCheck)
    ensures
        r == (match latest_release {
            None => VersionCheck::UnknownRemote,
            Some(remote) => match (semantic_version(remote.version@), semantic_version(local_version@)) {
                (None, _) => VersionCheck::BadRemote(remote),
                (Some(_), None) => VersionCheck::BadLocal(remote),
                (Some(remote_version), Some(local)) => check_of(remote, version_order(remote_version, local)),
            },
        }),
{
    match latest_release {
        None => VersionCheck::UnknownRemote,
        Some(remote) => match parse_version(remote.version.as_str()) {
            None => VersionCheck::BadRemote(remote),
            Some(remote_version) => match parse_version(local_version) {
                None => VersionCheck::BadLocal(remote),
                Some(local) => {
                    let order = compare_versions(&remote_version, &local);
                    check_from_order(remote, order)
                }
            },
        },
    }
}

} // verus!
