//! The version of BryggIO, and where a release of the supervisor is
//! published.
use vstd::prelude::*;

verus! {

/// A semantic version (`semver::Version`).
#[verifier::external_type_specification]
#[verifier::external_body]
pub struct ExVersion(semver::Version);

/// An absolute URL (`url::Url`).
#[verifier::external_type_specification]
#[verifier::external_body]
pub struct ExUrl(url::Url);

/// What `semver::Version::parse` makes of `text`: the version, or `None`
/// when `text` is not a semantic version.
pub uninterp spec fn semver_parse(text: Seq<char>) -> Option<semver::Version>;

/// What `url::Url::parse` makes of `text`: the absolute URL, or `None` when
/// `text` is not one.
pub uninterp spec fn url_parse(text: Seq<char>) -> Option<url::Url>;

/// Parses a semantic version (`semver::Version::parse`, its error dropped).
///
/// Trusted: `Version::parse` is a function of its text alone, so the result
/// is the one named by `semver_parse`; what the version holds is left
/// unsaid.
#[verifier::external_body]
fn parse_version(text: &str) -> (r: Option<semver::Version>)
    ensures
        r == semver_parse(text@),
{
    semver::Version::parse(text).ok()
}

/// Parses an absolute URL (`url::Url::parse`, its error dropped).
///
/// Trusted: `Url::parse` is a function of its text alone, so the result is
/// the one named by `url_parse`; what the URL holds is left unsaid.
#[verifier::external_body]
fn parse_url(text: &str) -> (r: Option<url::Url>)
    ensures
        r == url_parse(text@),
{
    url::Url::parse(text).ok()
}

/// The version of this package.
pub fn bryggio_version_str() -> (r: &'static str)
    ensures
        r@ == "0.4.0"@,
{
    "0.4.0"
}

/// The version of this package as a semantic version.
pub fn bryggio_version() -> (r: Option<semver::Version>)
    ensures
        r == semver_parse("0.4.0"@),
{
    parse_version(bryggio_version_str())
}

/// One file of a release: where it is downloaded from, and its name.
#[derive(Clone, Debug)]
pub struct ReleaseArchitecture {
    pub url: String,
    pub name: String,
}

/// A release of the supervisor on GitHub: its tag and its files.
#[derive(Clone, Debug)]
pub struct Release {
    pub tag_name: String,
    pub assets: Vec<ReleaseArchitecture>,
}

impl Release {
    /// The files of the release, in the order in which they are listed.
    pub fn urls(&self) -> (r: &Vec<ReleaseArchitecture>)
        ensures
            r@ == self.assets@,
    {
        &self.assets
    }
}

/// Why the version or download address of a release could not be read.
#[derive(Copy, Clone, Debug, PartialEq, Eq)]
pub enum ReleaseError {
    /// The release has no file.
    NoAssets,
    /// The address of its last file is not an absolute URL.
    InvalidUrl,
    /// Its tag is not a semantic version.
    InvalidVersion,
}

/// The version and download address of a release, from the parsed tag and
/// the parsed address of its last file; the address is looked at first.
pub open spec fn release_of(
    version: Option<semver::Version>,
    url: Option<url::Url>,
) -> Result<(semver::Version, url::Url), ReleaseError> {
    match url {
        None => Err(ReleaseError::InvalidUrl),
        Some(u) => match version {
            None => Err(ReleaseError::InvalidVersion),
            Some(v) => Ok((v, u)),
        },
    }
}

/// The version of a release tagged `tag_name` and the address of its last
/// file, among the addresses `asset_urls`.
pub open spec fn release_metadata_of(tag_name: Seq<char>, asset_urls: Seq<Seq<char>>) -> Result<
    (semver::Version, url::Url),
    ReleaseError,
> {
    if asset_urls.len() == 0 {
        Err(ReleaseError::NoAssets)
    } else {
        release_of(semver_parse(tag_name), url_parse(asset_urls.last()))
    }
}

/// Pairs a parsed version with a parsed address; fails on the address
/// first, then on the version.
pub fn release_from_parts(version: Option<semver::Version>, url: Option<url::Url>) -> (r: Result<
    (semver::Version, url::Url),
    ReleaseError,
>)
    ensures
        r == release_of(version, url),
{
    match url {
        None => Err(ReleaseError::InvalidUrl),
        Some(u) => match version {
            None => Err(ReleaseError::InvalidVersion),
            Some(v) => Ok((v, u)),
        },
    }
}

/// The version of a release tagged `tag_name` and the address of the last of
/// its files `asset_urls`.
pub fn release_metadata(tag_name: &str, asset_urls: &Vec<String>) -> (r: Result<
    (semver::Version, url::Url),
    ReleaseError,
>)
    ensures
        r == release_metadata_of(tag_name@, asset_urls@.map_values(|u: String| u@)),
{
    let n = asset_urls.len();
    if n == 0 {
        return Err(ReleaseError::NoAssets);
    }
    let url = parse_url(asset_urls[n - 1].as_str());
    let version = parse_version(tag_name);
    release_from_parts(version, url)
}

} // verus!
