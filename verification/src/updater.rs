//! The updater's decisions: which release is newer than the running version,
//! which asset of a release to download, how to read the release endpoint's
//! status, and the command that installs a downloaded package.
//!
//! Fetching, downloading and launching the installer belong to the caller.
use vstd::prelude::*;
use crate::text::{chars_of, ends_with, has_suffix, lowercase, push_str, string_of, to_lowercase};

verus! {

broadcast use vstd::string::group_string_axioms;

/// A downloadable file attached to a release.
#[derive(Clone, Debug)]
pub struct GithubAsset {
    pub name: String,
    pub browser_download_url: String,
    pub size: u64,
}

/// A published release, as the release endpoint describes it.
#[derive(Clone, Debug)]
pub struct GithubRelease {
    pub tag_name: String,
    pub assets: Vec<GithubAsset>,
    pub body: String,
}

/// The outcome of an update check.
#[derive(Clone, Debug)]
pub struct UpdateInfo {
    /// Whether the release is newer than the running version.
    pub available: bool,
    /// The release's tag, as published.
    pub latest_version: String,
    /// The release notes.
    pub changelog: String,
}

#[verifier::external_type_specification]
#[verifier::external_body]
pub struct ExSemverVersion(semver::Version);

#[verifier::external_type_specification]
#[verifier::external_body]
pub struct ExSemverError(semver::Error);

/// Whether `semver::Version::parse` accepts a text as a version.
pub uninterp spec fn semver_accepts(text: Seq<char>) -> bool;

/// Whether the version parsed from `a` is greater than the one parsed from `b`
/// in semver's total order on versions (major, minor, patch, pre-release, build
/// metadata, in that order).
pub uninterp spec fn semver_newer(a: Seq<char>, b: Seq<char>) -> bool;

/// `semver::Version::parse`: succeeds exactly on the texts it accepts.
#[verifier::external_body]
fn semver_parse(text: &str) -> (r: Result<semver::Version, semver::Error>)
    ensures
        r is Ok <==> semver_accepts(text@),
{
    semver::Version::parse(text)
}

/// A version text together with semver's parse of it.
#[derive(Debug)]
pub struct ParsedVersion {
    text: String,
    version: semver::Version,
}

impl View for ParsedVersion {
    type V = Seq<char>;

    /// The text the version was parsed from.
    closed spec fn view(&self) -> Seq<char> {
        self.text@
    }
}

/// `>` on `semver::Version`, applied to the versions parsed from the texts
/// of `a` and `b` (a `ParsedVersion` is only made by [`ParsedVersion::parse`],
/// which keeps the text beside its parse).
#[verifier::external_body]
fn semver_gt(a: &ParsedVersion, b: &ParsedVersion) -> (r: bool)
    ensures
        r == semver_newer(a@, b@),
{
    a.version > b.version
}

impl ParsedVersion {
    /// Parses a version text, or gives semver's reason for refusing it.
    pub fn parse(text: &str) -> (r: Result<ParsedVersion, semver::Error>)
        ensures
            r is Ok <==> semver_accepts(text@),
            r matches Ok(v) ==> v@ == text@,
    {
        match semver_parse(text) {
            Ok(version) => {
                let v = ParsedVersion { text: text.to_owned(), version };
                assert(v@ == text@);
                Ok(v)
            },
            Err(e) => Err(e),
        }
    }

    /// Whether this version is greater than `other` in semver's order.
    pub fn is_newer_than(&self, other: &ParsedVersion) -> (r: bool)
        ensures
            r == semver_newer(self@, other@),
    {
        semver_gt(self, other)
    }
}

/// Why an update check could not decide.
#[derive(Debug)]
pub enum UpdateCheckError {
    /// A version text that semver refuses, with semver's reason.
    InvalidVersion { text: String, reason: semver::Error },
}

/// A text without its leading `c` characters (`str::trim_start_matches(c)`).
pub open spec fn trim_leading(s: Seq<char>, c: char) -> Seq<char>
    decreases s.len(),
{
    if s.len() > 0 && s[0] == c {
        trim_leading(s.drop_first(), c)
    } else {
        s
    }
}

/// `s[i..]` has its leading `c` characters removed by trimming `s[i..]`.
proof fn lemma_trim_leading_step(s: Seq<char>, c: char, i: int)
    requires
        0 <= i < s.len(),
        s[i] == c,
    ensures
        trim_leading(s.subrange(i, s.len() as int), c) == trim_leading(s.subrange(i + 1, s.len() as int), c),
{
    assert(s.subrange(i, s.len() as int).drop_first() =~= s.subrange(i + 1, s.len() as int));
}

/// The text without its leading `c` characters.
pub fn trim_start_char(s: &str, c: char) -> (r: String)
    ensures
        r@ == trim_leading(s@, c),
{
    let v = chars_of(s);
    let mut i: usize = 0;
    assert(v@.subrange(0, v@.len() as int) =~= v@);
    while i < v.len() && v[i] == c
        invariant
            i <= v.len(),
            v@ == s@,
            trim_leading(v@.subrange(i as int, v@.len() as int), c) == trim_leading(s@, c),
        decreases v.len() - i,
    {
        proof {
            lemma_trim_leading_step(v@, c, i as int);
        }
        i = i + 1;
    }
    string_of(&v, i, v.len())
}

/// The version text of a release tag: the tag without its leading `v`s.
pub open spec fn tag_version(tag: Seq<char>) -> Seq<char> {
    trim_leading(tag, 'v')
}

/// The update information for a release, given whether it is newer.
pub open spec fn update_info_spec(release: &GithubRelease, available: bool, info: UpdateInfo) -> bool {
    &&& info.available == available
    &&& info.latest_version@ == release.tag_name@
    &&& info.changelog@ == release.body@
}

/// The update information for a release, given whether it is newer than the
/// running version: the tag and the notes of the release.
pub fn update_info_for(release: &GithubRelease, available: bool) -> (r: UpdateInfo)
    ensures
        update_info_spec(release, available, r),
{
    UpdateInfo {
        available,
        latest_version: release.tag_name.clone(),
        changelog: release.body.clone(),
    }
}

/// Compares a release with the running version `current_version`.
///
/// The release's version is its tag without leading `v`s. The running version
/// is parsed first: if semver refuses it, that is the error; then the
/// release's version. When both parse, the update is available exactly when
/// the release's version is greater in semver's order.
pub fn parse_and_check_version(release: &GithubRelease, current_version: &str) -> (r: Result<
    UpdateInfo,
    UpdateCheckError,
>)
    ensures
        r is Ok <==> semver_accepts(current_version@) && semver_accepts(
            tag_version(release.tag_name@),
        ),
        !semver_accepts(current_version@) ==> (r matches Err(
            UpdateCheckError::InvalidVersion { text, .. },
        ) && text@ == current_version@),
        semver_accepts(current_version@) && !semver_accepts(tag_version(release.tag_name@)) ==> (r matches Err(
            UpdateCheckError::InvalidVersion { text, .. },
        ) && text@ == tag_version(release.tag_name@)),
        r matches Ok(info) ==> update_info_spec(
            release,
            semver_newer(tag_version(release.tag_name@), current_version@),
            info,
        ),
{
    let latest_text = trim_start_char(release.tag_name.as_str(), 'v');
    let current = match ParsedVersion::parse(current_version) {
        Ok(v) => v,
        Err(reason) => {
            return Err(UpdateCheckError::InvalidVersion { text: current_version.to_owned(), reason });
        },
    };
    let latest = match ParsedVersion::parse(latest_text.as_str()) {
        Ok(v) => v,
        Err(reason) => {
            return Err(UpdateCheckError::InvalidVersion { text: latest_text, reason });
        },
    };
    Ok(update_info_for(release, latest.is_newer_than(&current)))
}

/// Whether an asset name marks a Windows installer package: it ends in
/// `.msi`, in any case.
pub open spec fn is_msi_name(name: Seq<char>) -> bool {
    has_suffix(lowercase(name), ".msi"@)
}

/// Whether `a` is the first asset of `assets` that satisfies `p`.
pub open spec fn first_asset_such_that(
    assets: Seq<GithubAsset>,
    p: spec_fn(Seq<char>) -> bool,
    a: GithubAsset,
) -> bool {
    exists|i: int|
        0 <= i < assets.len() && assets[i] == a && p(assets[i].name@) && forall|j: int|
            0 <= j < i ==> !p(#[trigger] assets[j].name@)
}

/// Whether the asset name is an installer package.
fn asset_is_msi(a: &GithubAsset) -> (r: bool)
    ensures
        r == is_msi_name(a.name@),
{
    let lower = to_lowercase(a.name.as_str());
    ends_with(lower.as_str(), ".msi")
}

/// The release's installer package: its first asset whose name ends in
/// `.msi`, in any case; `None` when there is no such asset.
pub fn find_msi_asset(release: &GithubRelease) -> (r: Option<&GithubAsset>)
    ensures
        r is None <==> forall|i: int|
            0 <= i < release.assets@.len() ==> !is_msi_name(#[trigger] release.assets@[i].name@),
        r matches Some(a) ==> first_asset_such_that(release.assets@, |n: Seq<char>| is_msi_name(n), *a),
{
    let mut i: usize = 0;
    while i < release.assets.len()
        invariant
            i <= release.assets@.len(),
            forall|j: int| 0 <= j < i ==> !is_msi_name(#[trigger] release.assets@[j].name@),
        decreases release.assets.len() - i,
    {
        if asset_is_msi(&release.assets[i]) {
            let a = &release.assets[i];
            assert(release.assets@[i as int] == *a);
            return Some(a);
        }
        i = i + 1;
    }
    None
}

/// The release's first asset named exactly `name`; `None` when there is none.
pub fn find_asset_named<'a>(release: &'a GithubRelease, name: &str) -> (r: Option<&'a GithubAsset>)
    ensures
        r is None <==> forall|i: int|
            0 <= i < release.assets@.len() ==> #[trigger] release.assets@[i].name@ != name@,
        r matches Some(a) ==> first_asset_such_that(release.assets@, |n: Seq<char>| n == name@, *a),
{
    let target = name.to_owned();
    let mut i: usize = 0;
    while i < release.assets.len()
        invariant
            i <= release.assets@.len(),
            target@ == name@,
            forall|j: int| 0 <= j < i ==> #[trigger] release.assets@[j].name@ != name@,
        decreases release.assets.len() - i,
    {
        if release.assets[i].name == target {
            let a = &release.assets[i];
            assert(release.assets@[i as int] == *a);
            return Some(a);
        }
        i = i + 1;
    }
    None
}

/// How the release endpoint answered, as far as the update check cares.
#[derive(PartialEq, Eq, Structural, Clone, Copy, Debug)]
pub enum ReleaseStatus {
    /// A success status (2xx): the body is the release.
    Success,
    /// 403: the repository is private or the rate limit is reached.
    Forbidden,
    /// Any other status.
    Failed(u16),
}

/// Classifies the HTTP status of the release endpoint's answer.
pub fn classify_release_status(code: u16) -> (r: ReleaseStatus)
    ensures
        200 <= code <= 299 ==> r == ReleaseStatus::Success,
        code == 403 ==> r == ReleaseStatus::Forbidden,
        !(200 <= code <= 299) && code != 403 ==> r == ReleaseStatus::Failed(code),
{
    if 200 <= code && code <= 299 {
        ReleaseStatus::Success
    } else if code == 403 {
        ReleaseStatus::Forbidden
    } else {
        ReleaseStatus::Failed(code)
    }
}

/// The command line (for `cmd.exe`) that installs the package at `msi_path`
/// quietly, waits for the installer, then starts the application at
/// `exe_path` again.
pub open spec fn install_command_spec(msi_path: Seq<char>, exe_path: Seq<char>) -> Seq<char> {
    "/c start /wait msiexec.exe /i \""@ + msi_path
        + "\" /passive /norestart && timeout /t 2 /nobreak && start \"\" \""@ + exe_path + "\""@
}

/// The command line that installs a downloaded package and relaunches the
/// application afterwards.
pub fn install_command(msi_path: &str, exe_path: &str) -> (r: String)
    ensures
        r@ == install_command_spec(msi_path@, exe_path@),
{
    let mut r = String::new();
    push_str(&mut r, "/c start /wait msiexec.exe /i \"");
    push_str(&mut r, msi_path);
    push_str(&mut r, "\" /passive /norestart && timeout /t 2 /nobreak && start \"\" \"");
    push_str(&mut r, exe_path);
    push_str(&mut r, "\"");
    assert(r@ =~= install_command_spec(msi_path@, exe_path@));
    r
}

} // verus!
