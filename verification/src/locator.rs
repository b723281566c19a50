//! The package resolver: from a package locator to the place where the
//! bytes of the package are to be had.
//!
//! A locator is tried in three ways, and the first that fits wins: as a
//! standard locator `<name>[@<version>]`, which points into the registry; as
//! an address that begins with `http://` or `https://`; and as the path of a
//! local file.

use crate::text::{
    begins_with_http_scheme, chars_of, find_char, first_index_of, has_http_scheme,
    lemma_first_index_of, text_eq,
};
use vstd::prelude::*;

verus! {

/// The pattern of a package name: a letter, then up to 63 letters, digits,
/// underscores or hyphens.
pub const MODULE_NAME_PATTERN: &'static str = "^([a-zA-Z][a-zA-Z0-9_-]{0,63})$";

/// The registry that serves packages known by name and version.
pub const REGISTRY_URL: &'static str = "https://spkg.io";

/// Whether `c` is a letter of the ASCII alphabet.
pub open spec fn is_name_start(c: char) -> bool {
    ('a' <= c && c <= 'z') || ('A' <= c && c <= 'Z')
}

/// Whether `c` may follow the first letter of a package name.
pub open spec fn is_name_char(c: char) -> bool {
    is_name_start(c) || ('0' <= c && c <= '9') || c == '_' || c == '-'
}

/// Whether `name` is a package name: 1 to 64 characters, the first a letter,
/// the others letters, digits, underscores or hyphens.
pub open spec fn is_package_name(name: Seq<char>) -> bool {
    &&& 1 <= name.len() <= 64
    &&& is_name_start(name[0])
    &&& forall|i: int| 1 <= i < name.len() ==> is_name_char(#[trigger] name[i])
}

/// Whether `semver::Version::parse` accepts `text` as a semantic version.
pub uninterp spec fn semver_parses(text: Seq<char>) -> bool;

/// Whether `version` is a semantic version.
///
/// Calls `semver::Version::parse` and keeps only whether it succeeded. The
/// contract gives that verdict a name; it claims nothing of which texts pass.
#[verifier::external_body]
pub(crate) fn is_valid_version(version: &str) -> (valid: bool)
    ensures
        valid == semver_parses(version@),
{
    semver::Version::parse(version).is_ok()
}

/// Whether the regular expression `pattern` matches somewhere in `haystack`,
/// or none where `pattern` is no regular expression.
///
/// Calls `regex::Regex::new` and `regex::Regex::is_match`. The contract
/// claims one thing, of the package name pattern only: anchored at both ends,
/// it matches exactly the texts made of one ASCII letter and up to 63 more
/// ASCII letters, digits, underscores or hyphens.
#[verifier::external_body]
fn regex_is_match(pattern: &str, haystack: &str) -> (found: Option<bool>)
    ensures
        pattern@ == MODULE_NAME_PATTERN@ ==> found == Some(is_package_name(haystack@)),
{
    match regex::Regex::new(pattern) {
        Ok(regex) => Some(regex.is_match(haystack)),
        Err(_) => None,
    }
}

/// Whether `name` is a package name.
pub fn is_valid_package_name(name: &str) -> (valid: bool)
    ensures
        valid == is_package_name(name@),
{
    match regex_is_match(MODULE_NAME_PATTERN, name) {
        Some(found) => found,
        None => false,
    }
}

/// Why a text is no standard package locator `<package>@<version>`.
pub enum LocatorError {
    /// The locator, which holds more than one `@`.
    Convention(String),
    /// The name part of the locator, which is no package name.
    InvalidName(String),
    /// The version part of the locator, which is no semantic version.
    InvalidVersion(String),
}

/// What a `LocatorError` is, as plain values.
pub enum LocatorErrorView {
    Convention(Seq<char>),
    InvalidName(Seq<char>),
    InvalidVersion(Seq<char>),
}

impl View for LocatorError {
    type V = LocatorErrorView;

    open spec fn view(&self) -> LocatorErrorView {
        match self {
            LocatorError::Convention(input) => LocatorErrorView::Convention(input@),
            LocatorError::InvalidName(name) => LocatorErrorView::InvalidName(name@),
            LocatorError::InvalidVersion(version) => LocatorErrorView::InvalidVersion(version@),
        }
    }
}

/// A locator of the standard form, before its version is checked.
pub enum StandardLocator {
    /// A package name alone, or with an empty version or the version `latest`.
    Latest { name: String },
    /// A package name with a version that has yet to be checked.
    Versioned { name: String, version: String },
}

/// What a `StandardLocator` is, as plain values.
pub enum StandardLocatorView {
    Latest { name: Seq<char> },
    Versioned { name: Seq<char>, version: Seq<char> },
}

impl View for StandardLocator {
    type V = StandardLocatorView;

    open spec fn view(&self) -> StandardLocatorView {
        match self {
            StandardLocator::Latest { name } => StandardLocatorView::Latest { name: name@ },
            StandardLocator::Versioned { name, version } => StandardLocatorView::Versioned {
                name: name@,
                version: version@,
            },
        }
    }
}

/// The parts of a locator `<name>[@<version>]`: the name stands before the
/// first `@`, the version behind it. More than one `@` breaks the convention;
/// then the name must be a package name. An absent or empty version, and the
/// version `latest`, ask for the latest version.
pub open spec fn split_locator(input: Seq<char>) -> Result<StandardLocatorView, LocatorErrorView> {
    let at = first_index_of(input, '@');
    let name = input.take(at);
    let version = if at < input.len() {
        input.skip(at + 1)
    } else {
        Seq::empty()
    };
    if version.contains('@') {
        Err(LocatorErrorView::Convention(input))
    } else if !is_package_name(name) {
        Err(LocatorErrorView::InvalidName(name))
    } else if version.len() == 0 || version == "latest"@ {
        Ok(StandardLocatorView::Latest { name })
    } else {
        Ok(StandardLocatorView::Versioned { name, version })
    }
}

/// The text of a version that is checked: the version without one leading `v`.
pub open spec fn version_number(version: Seq<char>) -> Seq<char> {
    if version.len() > 0 && version[0] == 'v' {
        version.skip(1)
    } else {
        version
    }
}

/// The name and version that a split locator stands for, given whether its
/// version number was found valid.
pub open spec fn checked_locator(locator: StandardLocatorView, version_is_valid: bool) -> Result<
    (Seq<char>, Seq<char>),
    LocatorErrorView,
> {
    match locator {
        StandardLocatorView::Latest { name } => Ok((name, "latest"@)),
        StandardLocatorView::Versioned { name, version } => if version_is_valid {
            Ok((name, version))
        } else {
            Err(LocatorErrorView::InvalidVersion(version))
        },
    }
}

/// Whether the version number of a split locator is a semantic version. A
/// locator that asks for the latest version has none to be checked.
pub open spec fn version_is_semver(locator: StandardLocatorView) -> bool {
    match locator {
        StandardLocatorView::Latest { name } => true,
        StandardLocatorView::Versioned { name, version } => semver_parses(version_number(version)),
    }
}

/// The name and version that the locator `input` stands for.
pub open spec fn standard_package(input: Seq<char>) -> Result<
    (Seq<char>, Seq<char>),
    LocatorErrorView,
> {
    match split_locator(input) {
        Err(e) => Err(e),
        Ok(locator) => checked_locator(locator, version_is_semver(locator)),
    }
}

/// What an executable result is, as plain values.
pub open spec fn package_result_view(result: Result<(String, String), LocatorError>) -> Result<
    (Seq<char>, Seq<char>),
    LocatorErrorView,
> {
    match result {
        Ok((name, version)) => Ok((name@, version@)),
        Err(e) => Err(e@),
    }
}

/// What the result of splitting a locator is, as plain values.
pub open spec fn locator_result_view(result: Result<StandardLocator, LocatorError>) -> Result<
    StandardLocatorView,
    LocatorErrorView,
> {
    match result {
        Ok(locator) => Ok(locator@),
        Err(e) => Err(e@),
    }
}

/// Splits a locator into its name and version, and checks all but the version number.
pub fn split_standard_package(input: &str) -> (result: Result<StandardLocator, LocatorError>)
    ensures
        locator_result_view(result) == split_locator(input@),
{
    let chars = chars_of(input);
    let n = chars.len();
    let at = find_char(&chars, '@');
    let name = input.substring_char(0, at);
    let version = if at < n {
        input.substring_char(at + 1, n)
    } else {
        ""
    };
    proof {
        reveal_strlit("");
    }
    let version_chars = chars_of(version);
    let second = find_char(&version_chars, '@');
    proof {
        lemma_first_index_of(version@, '@');
    }
    if second < version_chars.len() {
        return Err(LocatorError::Convention(String::from_str(input)));
    }
    if !is_valid_package_name(name) {
        return Err(LocatorError::InvalidName(String::from_str(name)));
    }
    if version_chars.len() == 0 || text_eq(version, "latest") {
        Ok(StandardLocator::Latest { name: String::from_str(name) })
    } else {
        Ok(
            StandardLocator::Versioned {
                name: String::from_str(name),
                version: String::from_str(version),
            },
        )
    }
}

/// Removes one leading `v` from a version.
pub fn strip_version_prefix(version: &str) -> (number: &str)
    ensures
        number@ == version_number(version@),
{
    let chars = chars_of(version);
    if chars.len() > 0 && chars[0] == 'v' {
        version.substring_char(1, chars.len())
    } else {
        version
    }
}

/// Settles a split locator, given whether its version number was found valid.
pub fn check_standard_package(locator: StandardLocator, version_is_valid: bool) -> (result: Result<
    (String, String),
    LocatorError,
>)
    ensures
        package_result_view(result) == checked_locator(locator@, version_is_valid),
{
    match locator {
        StandardLocator::Latest { name } => Ok((name, String::from_str("latest"))),
        StandardLocator::Versioned { name, version } => {
            if version_is_valid {
                Ok((name, version))
            } else {
                Err(LocatorError::InvalidVersion(version))
            }
        },
    }
}

/// Reads a locator of the standard form `<package>[@<version>]`, and returns
/// the package name and the version, `latest` where none is asked for.
pub fn parse_standard_package_and_version(input: &str) -> (result: Result<
    (String, String),
    LocatorError,
>)
    ensures
        package_result_view(result) == standard_package(input@),
{
    let locator = match split_standard_package(input) {
        Ok(locator) => locator,
        Err(e) => {
            return Err(e);
        },
    };
    let version_is_valid = match &locator {
        StandardLocator::Latest { .. } => true,
        StandardLocator::Versioned { version, .. } => is_valid_version(
            strip_version_prefix(version.as_str()),
        ),
    };
    check_standard_package(locator, version_is_valid)
}

/// Where the bytes of a package are to be had.
pub enum PackageLocation {
    /// At this address of the registry.
    Registry(String),
    /// At this address.
    Url(String),
    /// In the local file of this path.
    File(String),
}

/// What a `PackageLocation` is, as plain values.
pub enum PackageLocationView {
    Registry(Seq<char>),
    Url(Seq<char>),
    File(Seq<char>),
}

impl View for PackageLocation {
    type V = PackageLocationView;

    open spec fn view(&self) -> PackageLocationView {
        match self {
            PackageLocation::Registry(url) => PackageLocationView::Registry(url@),
            PackageLocation::Url(url) => PackageLocationView::Url(url@),
            PackageLocation::File(path) => PackageLocationView::File(path@),
        }
    }
}

/// The address of a package in the registry.
pub open spec fn registry_url(name: Seq<char>, version: Seq<char>) -> Seq<char> {
    REGISTRY_URL@ + "/v1/packages/"@ + name + "/"@ + version
}

/// Where a locator points, given what it stands for as a standard locator:
/// the registry for a standard locator, else the locator itself, as an
/// address where it begins with `http://` or `https://`, and as a file path
/// where it does not.
pub open spec fn location_of(
    input: Seq<char>,
    standard: Result<(Seq<char>, Seq<char>), LocatorErrorView>,
) -> PackageLocationView {
    match standard {
        Ok((name, version)) => PackageLocationView::Registry(registry_url(name, version)),
        Err(_) => if has_http_scheme(input) {
            PackageLocationView::Url(input)
        } else {
            PackageLocationView::File(input)
        },
    }
}

/// Where the locator `input` points.
pub open spec fn package_location(input: Seq<char>) -> PackageLocationView {
    location_of(input, standard_package(input))
}

/// Decides where a locator points, given what it stands for as a standard locator.
pub fn locate_package(input: &str, standard: Result<(String, String), LocatorError>) -> (location:
    PackageLocation)
    ensures
        location@ == location_of(input@, package_result_view(standard)),
{
    match standard {
        Ok((name, version)) => {
            let mut url = String::from_str(REGISTRY_URL);
            url.append("/v1/packages/");
            url.append(name.as_str());
            url.append("/");
            url.append(version.as_str());
            PackageLocation::Registry(url)
        },
        Err(_) => {
            if begins_with_http_scheme(input) {
                PackageLocation::Url(String::from_str(input))
            } else {
                PackageLocation::File(String::from_str(input))
            }
        },
    }
}

/// Resolves a package locator: to the registry where it is of the standard
/// form, else to an address where it begins with `http://` or `https://`,
/// else to a file.
pub fn resolve_package(input: &str) -> (location: PackageLocation)
    ensures
        location@ == package_location(input@),
{
    let standard = parse_standard_package_and_version(input);
    locate_package(input, standard)
}

/// The text that describes a locator error, with the token that caused it.
pub open spec fn locator_error_text(e: LocatorErrorView) -> Seq<char> {
    match e {
        LocatorErrorView::Convention(input) => "package name: "@ + input
            + " does not follow the convention of <package>@<version>"@,
        LocatorErrorView::InvalidName(name) => "package name "@ + name + " does not match regexp "@
            + MODULE_NAME_PATTERN@,
        LocatorErrorView::InvalidVersion(version) => "version '"@ + version
            + "' is not valid Semver format"@,
    }
}

impl LocatorError {
    /// The text that describes the error.
    pub fn message(&self) -> (text: String)
        ensures
            text@ == locator_error_text(self@),
    {
        match self {
            LocatorError::Convention(input) => {
                let mut text = String::from_str("package name: ");
                text.append(input.as_str());
                text.append(" does not follow the convention of <package>@<version>");
                text
            },
            LocatorError::InvalidName(name) => {
                let mut text = String::from_str("package name ");
                text.append(name.as_str());
                text.append(" does not match regexp ");
                text.append(MODULE_NAME_PATTERN);
                text
            },
            LocatorError::InvalidVersion(version) => {
                let mut text = String::from_str("version '");
                text.append(version.as_str());
                text.append("' is not valid Semver format");
                text
            },
        }
    }
}

} // verus!
