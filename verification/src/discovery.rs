//! Plugin discovery: from a plugin name to a binary component on disk.
//!
//! Plugins are distributed as crates on crates.io (for metadata) and as
//! pre-compiled WASM on GitHub Releases (for the binary). The requests are
//! made by the caller; this module says which request comes next and what
//! each answer means.

use crate::executor::clone_bytes;
use crate::paths::run_length;
use crate::registry::{record_of, InstalledPlugin, PluginRegistry};
use crate::storage::{
    plugin_path_of, split_crate_name, PluginManagerError, PluginStorage, PluginType,
};
use crate::text::{
    chars_of, clone_opt, has_prefix, has_suffix, matches_at, opt_text, starts_with, str_eq,
    substring,
};
use crate::version::{
    display, opt_version, parsed_version, reading_views, Version, VersionView,
};
use vstd::prelude::*;

verus! {

/// `s` without the characters `c` at its end.
pub open spec fn trim_end_char(s: Seq<char>, c: char) -> Seq<char>
    decreases s.len(),
{
    if s.len() > 0 && s.last() == c {
        trim_end_char(s.drop_last(), c)
    } else {
        s
    }
}

/// `s` without the copies of `suffix` at its end.
pub open spec fn trim_end_text(s: Seq<char>, suffix: Seq<char>) -> Seq<char>
    decreases s.len(),
{
    if suffix.len() > 0 && has_suffix(s, suffix) {
        trim_end_text(s.take(s.len() - suffix.len()), suffix)
    } else {
        s
    }
}

/// The owner and the repository that a path `owner/repo[/...]` names: what
/// stands before its first `/`, and what stands between that and the next.
/// `None` where the path holds no `/`.
pub open spec fn owner_and_repo(path: Seq<char>) -> Option<(Seq<char>, Seq<char>)> {
    let n = run_length(path);
    if 0 <= n < path.len() {
        let rest = path.skip(n + 1);
        Some((path.take(n), rest.take(run_length(rest))))
    } else {
        None
    }
}

/// The owner and repository of a GitHub URL. Two forms are accepted,
/// `https://github.com/<owner>/<repo>` and `git@github.com:<owner>/<repo>`;
/// slashes at the end and a `.git` suffix do not count.
pub open spec fn github_repo(url: Seq<char>) -> Option<(Seq<char>, Seq<char>)> {
    let trimmed = trim_end_char(url, '/');
    if has_prefix(trimmed, "https://github.com/"@) {
        owner_and_repo(trim_end_text(trimmed.skip("https://github.com/"@.len() as int), ".git"@))
    } else if has_prefix(trimmed, "git@github.com:"@) {
        owner_and_repo(trim_end_text(trimmed.skip("git@github.com:"@.len() as int), ".git"@))
    } else {
        None
    }
}

/// The owner and repository that a path names.
fn split_owner_repo(v: &Vec<char>, from: usize, to: usize) -> (r: Option<(String, String)>)
    requires
        from <= to <= v.len(),
    ensures
        match r {
            Some(found) => owner_and_repo(v@.subrange(from as int, to as int)) == Some(
                (found.0@, found.1@),
            ),
            None => owner_and_repo(v@.subrange(from as int, to as int)) is None,
        },
{
    let ghost path = v@.subrange(from as int, to as int);
    let mut slash: usize = from;
    while slash < to && v[slash] != '/'
        invariant
            from <= slash <= to <= v.len(),
            forall|j: int| from <= j < slash ==> v@[j] != '/',
        decreases to - slash,
    {
        slash += 1;
    }
    proof {
        crate::paths::lemma_run_length_is(path, slash - from);
    }
    if slash == to {
        return None;
    }
    let mut end: usize = slash + 1;
    while end < to && v[end] != '/'
        invariant
            slash < end <= to <= v.len(),
            forall|j: int| slash < j < end ==> v@[j] != '/',
        decreases to - end,
    {
        end += 1;
    }
    proof {
        let rest = path.skip(slash - from + 1);
        crate::paths::lemma_run_length_is(rest, end - slash - 1);
        assert(path.take(slash - from) == v@.subrange(from as int, slash as int));
        assert(rest.take(end - slash - 1) == v@.subrange(slash + 1, end as int));
    }
    Some((substring(v, from, slash), substring(v, slash + 1, end)))
}

/// Parses a GitHub URL into (owner, repo).
pub fn parse_github_url(url: &str) -> (r: Option<(String, String)>)
    ensures
        match r {
            Some(found) => github_repo(url@) == Some((found.0@, found.1@)),
            None => github_repo(url@) is None,
        },
{
    let v = chars_of(url);
    let mut end: usize = v.len();
    assert(v@.take(end as int) == v@);
    while end > 0 && v[end - 1] == '/'
        invariant
            end <= v.len(),
            trim_end_char(v@, '/') == trim_end_char(v@.take(end as int), '/'),
        decreases end,
    {
        assert(v@.take(end as int).drop_last() == v@.take(end - 1));
        end -= 1;
    }
    let ghost trimmed = v@.take(end as int);
    assert(trim_end_char(v@, '/') == trimmed);
    let https = chars_of("https://github.com/");
    let ssh = chars_of("git@github.com:");
    let start: usize = if end >= https.len() && matches_at(&v, &https, 0) {
        https.len()
    } else if end >= ssh.len() && matches_at(&v, &ssh, 0) {
        ssh.len()
    } else {
        assert(!has_prefix(trimmed, https@)) by {
            if has_prefix(trimmed, https@) {
                assert(trimmed.subrange(0, https@.len() as int) == v@.subrange(
                    0,
                    https@.len() as int,
                ));
            }
        }
        assert(!has_prefix(trimmed, ssh@)) by {
            if has_prefix(trimmed, ssh@) {
                assert(trimmed.subrange(0, ssh@.len() as int) == v@.subrange(0, ssh@.len() as int));
            }
        }
        return None;
    };
    proof {
        if start == https.len() {
            assert(trimmed.subrange(0, https@.len() as int) == v@.subrange(
                0,
                https@.len() as int,
            ));
        } else {
            assert(trimmed.subrange(0, ssh@.len() as int) == v@.subrange(0, ssh@.len() as int));
            assert(!has_prefix(trimmed, https@)) by {
                if has_prefix(trimmed, https@) {
                    assert(trimmed.subrange(0, https@.len() as int) == v@.subrange(
                        0,
                        https@.len() as int,
                    ));
                }
            }
        }
    }
    let ghost path = trimmed.skip(start as int);
    assert(path == v@.subrange(start as int, end as int));
    let git = chars_of(".git");
    proof {
        reveal_strlit(".git");
        assert(git@.len() == 4);
    }
    let mut stop: usize = end;
    while stop - start >= 4 && matches_at(&v, &git, stop - 4)
        invariant
            start <= stop <= end <= v.len(),
            git@ == ".git"@,
            git@.len() == 4,
            trim_end_text(path, git@) == trim_end_text(
                v@.subrange(start as int, stop as int),
                git@,
            ),
        decreases stop,
    {
        proof {
            let cur = v@.subrange(start as int, stop as int);
            assert(cur.subrange(cur.len() - 4, cur.len() as int) == v@.subrange(
                stop - 4,
                stop as int,
            ));
            assert(cur.take(cur.len() - 4) == v@.subrange(start as int, stop - 4));
        }
        stop -= 4;
    }
    proof {
        let cur = v@.subrange(start as int, stop as int);
        if cur.len() >= 4 {
            assert(cur.subrange(cur.len() - 4, cur.len() as int) == v@.subrange(
                stop - 4,
                stop as int,
            ));
        }
        assert(trim_end_text(cur, git@) == cur);
    }
    split_owner_repo(&v, start, stop)
}

/// The full crate name that a plugin name given by a user stands for: a
/// name that starts with `unduler-` stands for itself, one that starts with
/// a kind (`parser-`, `bumper-`, `formatter-`, `hook-`) gets `unduler-` in
/// front, and any other counts as the short name of a parser.
pub open spec fn full_plugin_name(name: Seq<char>) -> Seq<char> {
    if has_prefix(name, "unduler-"@) {
        name
    } else if has_prefix(name, "parser-"@) || has_prefix(name, "bumper-"@) || has_prefix(
        name,
        "formatter-"@,
    ) || has_prefix(name, "hook-"@) {
        "unduler-"@ + name
    } else {
        "unduler-parser-"@ + name
    }
}

/// Normalizes a plugin name to its full crate name.
pub fn normalize_plugin_name(name: &str) -> (r: String)
    ensures
        r@ == full_plugin_name(name@),
{
    if starts_with(name, "unduler-") {
        String::from_str(name)
    } else if starts_with(name, "parser-") || starts_with(name, "bumper-") || starts_with(
        name,
        "formatter-",
    ) || starts_with(name, "hook-") {
        let mut out = String::from_str("unduler-");
        out.append(name);
        out
    } else {
        let mut out = String::from_str("unduler-parser-");
        out.append(name);
        out
    }
}

/// Plugin metadata discovered from crates.io.
#[derive(Debug, Clone, PartialEq, Eq)]
pub struct PluginMetadata {
    /// Full crate name.
    pub crate_name: String,
    /// Plugin type.
    pub plugin_type: PluginType,
    /// Short name.
    pub short_name: String,
    /// Latest stable version.
    pub latest_version: Version,
    /// All available versions.
    pub versions: Vec<Version>,
    /// Description.
    pub description: Option<String>,
    /// Repository URL.
    pub repository: Option<String>,
}

/// Search result from crates.io.
#[derive(Debug, Clone, PartialEq, Eq)]
pub struct SearchResult {
    /// Full crate name.
    pub crate_name: String,
    /// Plugin type.
    pub plugin_type: PluginType,
    /// Short name.
    pub short_name: String,
    /// Description.
    pub description: Option<String>,
    /// Latest stable version.
    pub latest_version: Option<String>,
    /// Total downloads.
    pub downloads: u64,
}

/// One version of a crate, as the crate registry lists it.
#[derive(Debug, Clone, PartialEq, Eq)]
pub struct VersionRecord {
    pub num: String,
    pub yanked: bool,
}

/// What the crate registry knows of a crate.
#[derive(Debug, Clone, PartialEq, Eq)]
pub struct CrateRecord {
    pub description: Option<String>,
    pub repository: Option<String>,
    pub max_stable_version: Option<String>,
    pub versions: Vec<VersionRecord>,
}

/// The answer of the crate registry to a request for a crate's metadata.
#[derive(Debug, Clone, PartialEq, Eq)]
pub enum MetadataReply {
    /// The request failed on the way.
    TransportFailed(String),
    /// The registry has no crate of that name (status 404).
    NotFound,
    /// The answer could not be read.
    Malformed(String),
    /// The crate's record.
    Found(CrateRecord),
}

/// One crate of a search answer.
#[derive(Debug, Clone, PartialEq, Eq)]
pub struct SearchCrate {
    pub name: String,
    pub description: Option<String>,
    pub max_stable_version: Option<String>,
    pub downloads: u64,
}

/// One asset of a release on the code forge.
#[derive(Debug, Clone, PartialEq, Eq)]
pub struct ReleaseAsset {
    pub name: String,
    pub browser_download_url: String,
}

/// The answer of the code forge to a request for a release.
#[derive(Debug, Clone, PartialEq, Eq)]
pub enum ReleaseReply {
    /// The request failed on the way.
    TransportFailed(String),
    /// The forge has no such release (any status but success).
    Missing,
    /// The answer could not be read.
    Malformed(String),
    /// The assets of the release.
    Found(Vec<ReleaseAsset>),
}

/// The answer of the code forge to a request for an asset.
#[derive(Debug, Clone, PartialEq, Eq)]
pub enum AssetReply {
    /// The download failed.
    Failed(String),
    /// The bytes of the asset.
    Bytes(Vec<u8>),
}

/// The text from which the latest version of a crate is read: the latest
/// stable version where the registry names one, the first listed version
/// otherwise.
pub open spec fn latest_text(
    max_stable: Option<Seq<char>>,
    versions: Seq<VersionRecord>,
) -> Option<Seq<char>> {
    match max_stable {
        Some(text) => Some(text),
        None => if versions.len() > 0 {
            Some(versions[0].num@)
        } else {
            None
        },
    }
}

/// What a listed version reads as, where it is read at all: `Some` for the
/// position `i` only if `parsed` reaches that far and holds a version there.
pub open spec fn reading_at(parsed: Seq<Option<VersionView>>, i: int) -> Option<VersionView> {
    if 0 <= i < parsed.len() {
        parsed[i]
    } else {
        None
    }
}

/// The versions that can be installed among the first `n` of a listing,
/// given what each listed version reads as: those that are not yanked and
/// that read as versions, in the order of the listing.
pub open spec fn kept_versions(
    versions: Seq<VersionRecord>,
    parsed: Seq<Option<VersionView>>,
    n: int,
) -> Seq<VersionView>
    decreases n,
{
    if n <= 0 {
        Seq::empty()
    } else {
        let front = kept_versions(versions, parsed, n - 1);
        if !versions[n - 1].yanked && reading_at(parsed, n - 1) is Some {
            front.push(reading_at(parsed, n - 1)->0)
        } else {
            front
        }
    }
}

/// What each version of a listing reads as.
pub open spec fn readings(versions: Seq<VersionRecord>) -> Seq<Option<VersionView>> {
    versions.map_values(|v: VersionRecord| parsed_version(v.num@))
}

/// The views of a list of versions.
pub open spec fn version_views(list: Seq<Version>) -> Seq<VersionView> {
    list.map_values(|v: Version| v@)
}

/// The address of a crate's metadata.
pub open spec fn metadata_url_of(crate_name: Seq<char>) -> Seq<char> {
    "https://crates.io/api/v1/crates/"@ + crate_name
}

/// The address of a search for plugins.
pub open spec fn search_url_of(query: Seq<char>) -> Seq<char> {
    "https://crates.io/api/v1/crates?q=unduler-"@ + query + "&per_page=20"@
}

/// The address of a release.
pub open spec fn release_url_of(owner: Seq<char>, repo: Seq<char>, tag: Seq<char>) -> Seq<char> {
    "https://api.github.com/repos/"@ + owner + "/"@ + repo + "/releases/tags/"@ + tag
}

/// The name of the asset that holds a plugin's binary.
pub open spec fn wasm_name_of(crate_name: Seq<char>) -> Seq<char> {
    crate_name + ".wasm"@
}

/// The tags under which the release of a version is looked for, in order:
/// `v<X.Y.Z>`, `<X.Y.Z>`, `<crate name>-v<X.Y.Z>`.
pub open spec fn tag_formats(crate_name: Seq<char>, version: Seq<char>) -> Seq<Seq<char>> {
    seq!["v"@ + version, version, crate_name + "-v"@ + version]
}

/// The address of a crate's metadata.
pub fn metadata_url(crate_name: &str) -> (r: String)
    ensures
        r@ == metadata_url_of(crate_name@),
{
    let mut out = String::from_str("https://crates.io/api/v1/crates/");
    out.append(crate_name);
    out
}

/// The address of a search for plugins.
pub fn search_url(query: &str) -> (r: String)
    ensures
        r@ == search_url_of(query@),
{
    let mut out = String::from_str("https://crates.io/api/v1/crates?q=unduler-");
    out.append(query);
    out.append("&per_page=20");
    out
}

/// The address of a release.
pub fn release_url(owner: &str, repo: &str, tag: &str) -> (r: String)
    ensures
        r@ == release_url_of(owner@, repo@, tag@),
{
    let mut out = String::from_str("https://api.github.com/repos/");
    out.append(owner);
    out.append("/");
    out.append(repo);
    out.append("/releases/tags/");
    out.append(tag);
    out
}

/// The tags under which the release of a version is looked for, in order.
pub fn tag_candidates(crate_name: &str, version: &Version) -> (r: Vec<String>)
    ensures
        crate::text::texts(r@) == tag_formats(crate_name@, display(version@)),
{
    let text = version.to_string();
    let mut first = String::from_str("v");
    first.append(text.as_str());
    let mut third = String::from_str(crate_name);
    third.append("-v");
    third.append(text.as_str());
    let mut out: Vec<String> = Vec::new();
    out.push(first);
    out.push(text);
    out.push(third);
    assert(crate::text::texts(out@) == tag_formats(crate_name@, display(version@)));
    out
}

/// The asset of a release that holds the binary of `crate_name`: the first
/// one whose name is exactly `<crate name>.wasm`.
pub open spec fn wasm_asset(assets: Seq<ReleaseAsset>, crate_name: Seq<char>) -> Option<int>
    decreases assets.len(),
{
    if assets.len() == 0 {
        None
    } else if assets[0].name@ == wasm_name_of(crate_name) {
        Some(0)
    } else {
        match wasm_asset(assets.skip(1), crate_name) {
            Some(i) => Some(i + 1),
            None => None,
        }
    }
}

/// What `wasm_asset` returns is the first asset of that name.
pub proof fn lemma_wasm_asset(assets: Seq<ReleaseAsset>, crate_name: Seq<char>)
    ensures
        match wasm_asset(assets, crate_name) {
            Some(i) => 0 <= i < assets.len() && assets[i].name@ == wasm_name_of(crate_name)
                && forall|j: int| 0 <= j < i ==> assets[j].name@ != wasm_name_of(crate_name),
            None => forall|j: int|
                0 <= j < assets.len() ==> assets[j].name@ != wasm_name_of(crate_name),
        },
    decreases assets.len(),
{
    if assets.len() > 0 && assets[0].name@ != wasm_name_of(crate_name) {
        lemma_wasm_asset(assets.skip(1), crate_name);
        match wasm_asset(assets.skip(1), crate_name) {
            Some(i) => {
                assert forall|j: int| 0 <= j < i + 1 implies assets[j].name@ != wasm_name_of(
                    crate_name,
                ) by {
                    if j > 0 {
                        assert(assets.skip(1)[j - 1] == assets[j]);
                    }
                }
            },
            None => {
                assert forall|j: int| 0 <= j < assets.len() implies assets[j].name@
                    != wasm_name_of(crate_name) by {
                    if j > 0 {
                        assert(assets.skip(1)[j - 1] == assets[j]);
                    }
                }
            },
        }
    }
}

/// The position of the asset that holds the binary of `crate_name`.
pub fn find_asset(assets: &Vec<ReleaseAsset>, crate_name: &str) -> (r: Option<usize>)
    ensures
        match r {
            Some(i) => wasm_asset(assets@, crate_name@) == Some(i as int) && i < assets.len(),
            None => wasm_asset(assets@, crate_name@) is None,
        },
{
    let mut wanted = String::from_str(crate_name);
    wanted.append(".wasm");
    let mut i: usize = 0;
    while i < assets.len()
        invariant
            i <= assets.len(),
            wanted@ == wasm_name_of(crate_name@),
            forall|j: int| 0 <= j < i ==> assets@[j].name@ != wasm_name_of(crate_name@),
        decreases assets.len() - i,
    {
        if str_eq(assets[i].name.as_str(), wanted.as_str()) {
            proof {
                assert(assets@[i as int].name@ == wasm_name_of(crate_name@));
                lemma_wasm_asset(assets@, crate_name@);
            }
            return Some(i);
        }
        i += 1;
    }
    proof {
        lemma_wasm_asset(assets@, crate_name@);
    }
    None
}

/// What the answer to a request for a release means: the address of the
/// binary to download, or the error of this attempt.
pub open spec fn release_meaning(
    crate_name: Seq<char>,
    tag: Seq<char>,
    url: Seq<char>,
    reply: ReleaseReply,
    r: Result<String, PluginManagerError>,
) -> bool {
    match reply {
        ReleaseReply::TransportFailed(why) => r is Err && r->Err_0.is_download_failed(
            crate_name,
            url,
            why@,
        ),
        ReleaseReply::Missing => r is Err && r->Err_0.is_release_not_found(crate_name, tag),
        ReleaseReply::Malformed(why) => r is Err && r->Err_0.is_download_failed(
            crate_name,
            url,
            why@,
        ),
        ReleaseReply::Found(assets) => match wasm_asset(assets@, crate_name) {
            Some(i) => r is Ok && r->Ok_0@ == assets@[i].browser_download_url@,
            None => r is Err && r->Err_0.is_asset_not_found(crate_name, tag),
        },
    }
}

/// Reads the answer to a request for the release `tag`, made at `url`.
pub fn release_outcome(crate_name: &str, tag: &str, url: &str, reply: &ReleaseReply) -> (r: Result<
    String,
    PluginManagerError,
>)
    ensures
        release_meaning(crate_name@, tag@, url@, *reply, r),
{
    match reply {
        ReleaseReply::TransportFailed(why) => Err(
            PluginManagerError::DownloadFailed {
                name: String::from_str(crate_name),
                url: String::from_str(url),
                reason: why.clone(),
            },
        ),
        ReleaseReply::Missing => Err(
            PluginManagerError::ReleaseNotFound {
                name: String::from_str(crate_name),
                version: String::from_str(tag),
            },
        ),
        ReleaseReply::Malformed(why) => Err(
            PluginManagerError::DownloadFailed {
                name: String::from_str(crate_name),
                url: String::from_str(url),
                reason: why.clone(),
            },
        ),
        ReleaseReply::Found(assets) => match find_asset(assets, crate_name) {
            Some(i) => Ok(assets[i].browser_download_url.clone()),
            None => Err(
                PluginManagerError::WasmAssetNotFound {
                    name: String::from_str(crate_name),
                    version: String::from_str(tag),
                },
            ),
        },
    }
}

/// What the answer to a download means.
pub open spec fn asset_meaning(
    crate_name: Seq<char>,
    url: Seq<char>,
    reply: AssetReply,
    r: Result<Vec<u8>, PluginManagerError>,
) -> bool {
    match reply {
        AssetReply::Failed(why) => r is Err && r->Err_0.is_download_failed(crate_name, url, why@),
        AssetReply::Bytes(bytes) => r is Ok && r->Ok_0@ == bytes@,
    }
}

/// Reads the answer to the download of a binary from `url`.
pub fn asset_outcome(crate_name: &str, url: &str, reply: AssetReply) -> (r: Result<
    Vec<u8>,
    PluginManagerError,
>)
    ensures
        asset_meaning(crate_name@, url@, reply, r),
{
    match reply {
        AssetReply::Failed(why) => Err(
            PluginManagerError::DownloadFailed {
                name: String::from_str(crate_name),
                url: String::from_str(url),
                reason: why,
            },
        ),
        AssetReply::Bytes(bytes) => Ok(bytes),
    }
}

/// What the code forge answers when one tag is tried: its answer to the
/// request for the release and, if the binary is then asked for, its answer
/// to the download.
#[derive(Debug, Clone, PartialEq, Eq)]
pub struct Attempt {
    pub release: ReleaseReply,
    pub asset: AssetReply,
}

/// The attempt finds the binary of `crate_name`: the release is there, it
/// carries the asset `<crate name>.wasm`, and the download gives bytes.
pub open spec fn attempt_succeeds(crate_name: Seq<char>, attempt: Attempt) -> bool {
    &&& attempt.release matches ReleaseReply::Found(assets)
    &&& wasm_asset(assets@, crate_name) is Some
    &&& attempt.asset is Bytes
}

/// What one attempt comes to.
pub open spec fn attempt_meaning(
    crate_name: Seq<char>,
    tag: Seq<char>,
    url: Seq<char>,
    attempt: Attempt,
    r: Result<Vec<u8>, PluginManagerError>,
) -> bool {
    match attempt.release {
        ReleaseReply::Found(assets) => match wasm_asset(assets@, crate_name) {
            Some(i) => asset_meaning(
                crate_name,
                assets@[i].browser_download_url@,
                attempt.asset,
                r,
            ),
            None => r is Err && r->Err_0.is_asset_not_found(crate_name, tag),
        },
        ReleaseReply::Missing => r is Err && r->Err_0.is_release_not_found(crate_name, tag),
        ReleaseReply::TransportFailed(why) => r is Err && r->Err_0.is_download_failed(
            crate_name,
            url,
            why@,
        ),
        ReleaseReply::Malformed(why) => r is Err && r->Err_0.is_download_failed(
            crate_name,
            url,
            why@,
        ),
    }
}

/// What one attempt comes to: the bytes of the binary, or the error of the
/// attempt.
pub fn attempt_outcome(crate_name: &str, tag: &str, url: &str, attempt: &Attempt) -> (r: Result<
    Vec<u8>,
    PluginManagerError,
>)
    ensures
        attempt_meaning(crate_name@, tag@, url@, *attempt, r),
{
    match release_outcome(crate_name, tag, url, &attempt.release) {
        Err(e) => Err(e),
        Ok(download_url) => {
            let reply = match &attempt.asset {
                AssetReply::Failed(why) => AssetReply::Failed(why.clone()),
                AssetReply::Bytes(bytes) => AssetReply::Bytes(clone_bytes(bytes)),
            };
            asset_outcome(crate_name, download_url.as_str(), reply)
        },
    }
}

/// The state of a search for a plugin's binary: which tag is tried next, and
/// the error of the last attempt that failed.
pub struct DownloadProbe {
    crate_name: String,
    version: String,
    owner: String,
    repo: String,
    tags: Vec<String>,
    next: usize,
    last_error: Option<PluginManagerError>,
}

impl DownloadProbe {
    /// The crate whose binary is looked for.
    pub closed spec fn crate_name(&self) -> Seq<char> {
        self.crate_name@
    }

    /// The text of the version that is looked for.
    pub closed spec fn version(&self) -> Seq<char> {
        self.version@
    }

    /// The owner of the repository.
    pub closed spec fn owner(&self) -> Seq<char> {
        self.owner@
    }

    /// The repository.
    pub closed spec fn repo(&self) -> Seq<char> {
        self.repo@
    }

    /// The number of tags tried so far.
    pub closed spec fn tried(&self) -> int {
        self.next as int
    }

    /// The error of the last attempt that failed.
    pub closed spec fn last_error(&self) -> Option<PluginManagerError> {
        self.last_error
    }

    /// The probe is well formed: its tags are the three tag formats, and no
    /// more of them were tried than there are.
    pub closed spec fn wf(&self) -> bool {
        &&& crate::text::texts(self.tags@) == tag_formats(self.crate_name@, self.version@)
        &&& self.next <= 3
    }

    /// The tag to try next, if any is left.
    pub open spec fn pending_tag(&self) -> Option<Seq<char>> {
        if 0 <= self.tried() < 3 {
            Some(tag_formats(self.crate_name(), self.version())[self.tried()])
        } else {
            None
        }
    }

    /// Starts the search for the binary of `version` of a plugin. Fails
    /// where the metadata names no repository, or one that is no GitHub
    /// repository.
    pub fn begin(metadata: &PluginMetadata, version: &Version) -> (r: Result<
        DownloadProbe,
        PluginManagerError,
    >)
        ensures
            match r {
                Ok(probe) => {
                    &&& probe.wf()
                    &&& probe.tried() == 0
                    &&& probe.last_error() is None
                    &&& probe.crate_name() == metadata.crate_name@
                    &&& probe.version() == display(version@)
                    &&& metadata.repository is Some
                    &&& github_repo(metadata.repository->0@) == Some(
                        (probe.owner(), probe.repo()),
                    )
                },
                Err(e) => match metadata.repository {
                    None => e.is_invalid_metadata(
                        metadata.crate_name@,
                        "missing repository URL"@,
                    ),
                    Some(url) => github_repo(url@) is None && e.is_invalid_metadata(
                        metadata.crate_name@,
                        "invalid GitHub repository URL: "@ + url@,
                    ),
                },
            },
    {
        let url = match &metadata.repository {
            Some(url) => url,
            None => {
                return Err(
                    PluginManagerError::InvalidMetadata {
                        name: metadata.crate_name.clone(),
                        reason: String::from_str("missing repository URL"),
                    },
                );
            },
        };
        match parse_github_url(url.as_str()) {
            None => {
                let mut reason = String::from_str("invalid GitHub repository URL: ");
                reason.append(url.as_str());
                Err(
                    PluginManagerError::InvalidMetadata {
                        name: metadata.crate_name.clone(),
                        reason,
                    },
                )
            },
            Some(found) => {
                let (owner, repo) = found;
                Ok(
                    DownloadProbe {
                        crate_name: metadata.crate_name.clone(),
                        version: version.to_string(),
                        owner,
                        repo,
                        tags: tag_candidates(metadata.crate_name.as_str(), version),
                        next: 0,
                        last_error: None,
                    },
                )
            },
        }
    }

    /// The request to make now: the tag to try and the address of its
    /// release. `None` when every tag format was tried.
    pub fn current(&self) -> (r: Option<(String, String)>)
        requires
            self.wf(),
        ensures
            match r {
                Some(request) => self.pending_tag() == Some(request.0@) && request.1@
                    == release_url_of(self.owner(), self.repo(), request.0@),
                None => self.pending_tag() is None,
            },
    {
        proof {
            let formats = tag_formats(self.crate_name@, self.version@);
            assert(formats.len() == 3);
            assert(crate::text::texts(self.tags@).len() == self.tags@.len());
        }
        if self.next < self.tags.len() {
            let tag = self.tags[self.next].clone();
            assert(tag@ == crate::text::texts(self.tags@)[self.next as int]);
            let url = release_url(self.owner.as_str(), self.repo.as_str(), tag.as_str());
            Some((tag, url))
        } else {
            assert(crate::text::texts(self.tags@).len() == 3);
            None
        }
    }

    /// Records that the attempt with the current tag failed, and moves on
    /// to the next tag, if there is one.
    pub fn record_failure(&mut self, error: PluginManagerError)
        requires
            old(self).wf(),
        ensures
            final(self).wf(),
            final(self).tried() == (if old(self).tried() < 3 {
                old(self).tried() + 1
            } else {
                old(self).tried()
            }),
            final(self).last_error() == Some(error),
            final(self).crate_name() == old(self).crate_name(),
            final(self).version() == old(self).version(),
            final(self).owner() == old(self).owner(),
            final(self).repo() == old(self).repo(),
    {
        self.last_error = Some(error);
        if self.next < 3 {
            self.next = self.next + 1;
        }
    }

    /// The error of a search that found nothing: that of the last attempt,
    /// or `ReleaseNotFound` for the version where nothing was tried.
    pub fn give_up(self) -> (r: PluginManagerError)
        ensures
            match self.last_error() {
                Some(e) => r == e,
                None => r.is_release_not_found(self.crate_name(), self.version()),
            },
    {
        match self.last_error {
            Some(e) => e,
            None => PluginManagerError::ReleaseNotFound {
                name: self.crate_name,
                version: self.version,
            },
        }
    }
}

/// What a search comes to when the forge answers the attempts in `attempts`,
/// one for each tag format in order: the result of the first attempt that
/// succeeds; failing that, the error of the last attempt.
pub open spec fn search_meaning(
    crate_name: Seq<char>,
    version: Seq<char>,
    owner: Seq<char>,
    repo: Seq<char>,
    attempts: Seq<Attempt>,
    r: Result<Vec<u8>, PluginManagerError>,
) -> bool {
    let tags = tag_formats(crate_name, version);
    if attempt_succeeds(crate_name, attempts[0]) {
        attempt_meaning(crate_name, tags[0], release_url_of(owner, repo, tags[0]), attempts[0], r)
    } else if attempt_succeeds(crate_name, attempts[1]) {
        attempt_meaning(crate_name, tags[1], release_url_of(owner, repo, tags[1]), attempts[1], r)
    } else {
        attempt_meaning(crate_name, tags[2], release_url_of(owner, repo, tags[2]), attempts[2], r)
    }
}

/// The mathematical content of a [`PluginMetadata`].
pub struct PluginMetadataView {
    pub crate_name: Seq<char>,
    pub plugin_type: PluginType,
    pub short_name: Seq<char>,
    pub latest_version: VersionView,
    pub versions: Seq<VersionView>,
    pub description: Option<Seq<char>>,
    pub repository: Option<Seq<char>>,
}

impl View for PluginMetadata {
    type V = PluginMetadataView;

    open spec fn view(&self) -> PluginMetadataView {
        PluginMetadataView {
            crate_name: self.crate_name@,
            plugin_type: self.plugin_type,
            short_name: self.short_name@,
            latest_version: self.latest_version@,
            versions: version_views(self.versions@),
            description: opt_text(self.description),
            repository: opt_text(self.repository),
        }
    }
}

/// The mathematical content of a [`SearchResult`].
pub struct SearchResultView {
    pub crate_name: Seq<char>,
    pub plugin_type: PluginType,
    pub short_name: Seq<char>,
    pub description: Option<Seq<char>>,
    pub latest_version: Option<Seq<char>>,
    pub downloads: nat,
}

impl View for SearchResult {
    type V = SearchResultView;

    open spec fn view(&self) -> SearchResultView {
        SearchResultView {
            crate_name: self.crate_name@,
            plugin_type: self.plugin_type,
            short_name: self.short_name@,
            description: opt_text(self.description),
            latest_version: opt_text(self.latest_version),
            downloads: self.downloads as nat,
        }
    }
}

/// The views of a list of search results.
pub open spec fn result_views(list: Seq<SearchResult>) -> Seq<SearchResultView> {
    list.map_values(|r: SearchResult| r@)
}

/// The plugins among the crates of a search answer, in order: the crates
/// whose names are plugin names.
pub open spec fn plugins_among(crates: Seq<SearchCrate>) -> Seq<SearchResultView>
    decreases crates.len(),
{
    if crates.len() == 0 {
        Seq::empty()
    } else {
        let front = plugins_among(crates.drop_last());
        let last = crates.last();
        match split_crate_name(last.name@) {
            Some(found) => front.push(
                SearchResultView {
                    crate_name: last.name@,
                    plugin_type: found.0,
                    short_name: found.1,
                    description: opt_text(last.description),
                    latest_version: opt_text(last.max_stable_version),
                    downloads: last.downloads as nat,
                },
            ),
            None => front,
        }
    }
}

/// What the answer to a request for metadata means, given what the text of
/// the latest version reads as (`None` where the answer names no version)
/// and what each listed version reads as.
pub open spec fn metadata_given(
    crate_name: Seq<char>,
    reply: MetadataReply,
    latest: Option<Option<VersionView>>,
    parsed: Seq<Option<VersionView>>,
    r: Result<PluginMetadata, PluginManagerError>,
) -> bool {
    match split_crate_name(crate_name) {
        None => r is Err && r->Err_0.is_invalid_name(crate_name),
        Some(found) => match reply {
            MetadataReply::TransportFailed(why) => r is Err && (
            r->Err_0 matches PluginManagerError::CratesIoFetch { name, reason } && name@
                == crate_name && reason@ == why@),
            MetadataReply::NotFound => r is Err && (
            r->Err_0 matches PluginManagerError::CrateNotFound { name } && name@ == crate_name),
            MetadataReply::Malformed(why) => r is Err && (
            r->Err_0 matches PluginManagerError::CratesIoFetch { name, reason } && name@
                == crate_name && reason@ == why@),
            MetadataReply::Found(record) => match latest {
                None => r is Err && r->Err_0.is_invalid_metadata(
                    crate_name,
                    "no versions available"@,
                ),
                Some(None) => r is Err && r->Err_0.is_invalid_metadata(
                    crate_name,
                    "invalid version format"@,
                ),
                Some(Some(version)) => r is Ok && r->Ok_0@ == (PluginMetadataView {
                    crate_name,
                    plugin_type: found.0,
                    short_name: found.1,
                    latest_version: version,
                    versions: kept_versions(
                        record.versions@,
                        parsed,
                        record.versions@.len() as int,
                    ),
                    description: opt_text(record.description),
                    repository: opt_text(record.repository),
                }),
            },
        },
    }
}

/// What the text of the latest version of a record reads as; `None` where
/// the record names no version.
pub open spec fn latest_reading(record: CrateRecord) -> Option<Option<VersionView>> {
    match latest_text(opt_text(record.max_stable_version), record.versions@) {
        Some(text) => Some(parsed_version(text)),
        None => None,
    }
}

/// What the answer to a request for metadata means.
pub open spec fn metadata_meaning(
    crate_name: Seq<char>,
    reply: MetadataReply,
    r: Result<PluginMetadata, PluginManagerError>,
) -> bool {
    match reply {
        MetadataReply::Found(record) => metadata_given(
            crate_name,
            reply,
            latest_reading(record),
            readings(record.versions@),
            r,
        ),
        _ => metadata_given(crate_name, reply, None, Seq::empty(), r),
    }
}

/// The versions that a record names, read: the latest one, and each listed
/// one.
#[derive(Debug, Clone)]
pub struct RecordVersions {
    /// What the text of the latest version reads as; `None` where the
    /// record names no version.
    pub latest: Option<Option<Version>>,
    /// What each listed version reads as, in the order of the listing.
    pub listed: Vec<Option<Version>>,
}

/// Reads the versions that a record names.
pub fn read_record_versions(record: &CrateRecord) -> (r: RecordVersions)
    ensures
        (match r.latest {
            Some(reading) => Some(opt_version(reading)),
            None => None,
        }) == latest_reading(*record),
        reading_views(r.listed@) == readings(record.versions@),
{
    let latest = match &record.max_stable_version {
        Some(text) => Some(Version::parse(text.as_str()).ok()),
        None => if record.versions.len() > 0 {
            Some(Version::parse(record.versions[0].num.as_str()).ok())
        } else {
            None
        },
    };
    let mut listed: Vec<Option<Version>> = Vec::new();
    let mut i: usize = 0;
    while i < record.versions.len()
        invariant
            i <= record.versions.len(),
            reading_views(listed@) == readings(record.versions@).take(i as int),
        decreases record.versions.len() - i,
    {
        let ghost before = reading_views(listed@);
        let ghost all = readings(record.versions@);
        let reading = Version::parse(record.versions[i].num.as_str()).ok();
        assert(opt_version(reading) == all[i as int]);
        listed.push(reading);
        assert(reading_views(listed@) =~= before.push(all[i as int]));
        assert(all.take(i + 1) =~= all.take(i as int).push(all[i as int]));
        i += 1;
    }
    assert(readings(record.versions@).take(record.versions@.len() as int) =~= readings(
        record.versions@,
    ));
    RecordVersions { latest, listed }
}

/// Whether two versions are the same in every component.
pub fn same_version(a: &Version, b: &Version) -> (r: bool)
    ensures
        r == (a@ == b@),
{
    a.major == b.major && a.minor == b.minor && a.patch == b.patch && str_eq(
        a.pre.as_str(),
        b.pre.as_str(),
    ) && str_eq(a.build.as_str(), b.build.as_str())
}

/// What is to be done to install a plugin.
#[derive(Debug, Clone, PartialEq, Eq)]
pub struct InstallPlan {
    /// The version to install.
    pub version: Version,
    /// Where its binary goes.
    pub path: String,
}

/// What is to be done after a plugin was taken off the registry.
#[derive(Debug, Clone, PartialEq, Eq)]
pub struct Removal {
    /// The record that was taken out.
    pub plugin: InstalledPlugin,
    /// The binary to delete.
    pub path: String,
    /// The plugin's directory, to delete if nothing is left in it.
    pub dir: String,
}

/// The version to install: the requested one, or the latest where none is
/// requested.
pub open spec fn chosen_version(latest: VersionView, requested: Option<VersionView>)
    -> VersionView {
    match requested {
        Some(v) => v,
        None => latest,
    }
}

/// That exact version of the plugin is on record.
pub open spec fn already_installed(
    entries: Seq<crate::registry::InstalledPluginView>,
    crate_name: Seq<char>,
    version: VersionView,
) -> bool {
    record_of(entries, crate_name) matches Some(existing) && existing.version == version
}

/// Plugin discovery and download service.
pub struct PluginDiscovery;

impl PluginDiscovery {
    /// Creates a new plugin discovery instance.
    pub fn new() -> PluginDiscovery {
        PluginDiscovery
    }

    /// Builds plugin metadata from the answer of crates.io.
    ///
    /// Fails where the crate name is no plugin name (whatever the answer),
    /// where the crate is not there or the request failed, and where the
    /// answer names no version that can be read.
    pub fn fetch_metadata(&self, crate_name: &str, reply: MetadataReply) -> (r: Result<
        PluginMetadata,
        PluginManagerError,
    >)
        ensures
            metadata_meaning(crate_name@, reply, r),
    {
        let versions = match &reply {
            MetadataReply::Found(record) => read_record_versions(record),
            _ => RecordVersions { latest: None, listed: Vec::new() },
        };
        proof {
            if !(reply is Found) {
                assert(reading_views(versions.listed@) =~= Seq::empty());
            }
        }
        self.metadata_from(crate_name, reply, versions)
    }

    /// Builds plugin metadata from the answer of crates.io, given what the
    /// versions that the answer names read as. A listed version that
    /// `versions` does not reach counts as unreadable.
    pub fn metadata_from(
        &self,
        crate_name: &str,
        reply: MetadataReply,
        versions: RecordVersions,
    ) -> (r: Result<PluginMetadata, PluginManagerError>)
        ensures
            metadata_given(
                crate_name@,
                reply,
                match versions.latest {
                    Some(reading) => Some(opt_version(reading)),
                    None => None,
                },
                reading_views(versions.listed@),
                r,
            ),
    {
        let (plugin_type, short_name) = match PluginStorage::parse_crate_name(crate_name) {
            Ok(found) => found,
            Err(e) => {
                return Err(e);
            },
        };
        let record = match reply {
            MetadataReply::TransportFailed(why) => {
                return Err(
                    PluginManagerError::CratesIoFetch {
                        name: String::from_str(crate_name),
                        reason: why,
                    },
                );
            },
            MetadataReply::NotFound => {
                return Err(
                    PluginManagerError::CrateNotFound { name: String::from_str(crate_name) },
                );
            },
            MetadataReply::Malformed(why) => {
                return Err(
                    PluginManagerError::CratesIoFetch {
                        name: String::from_str(crate_name),
                        reason: why,
                    },
                );
            },
            MetadataReply::Found(record) => record,
        };
        let RecordVersions { latest, listed } = versions;
        let latest_version = match latest {
            None => {
                return Err(
                    PluginManagerError::InvalidMetadata {
                        name: String::from_str(crate_name),
                        reason: String::from_str("no versions available"),
                    },
                );
            },
            Some(None) => {
                return Err(
                    PluginManagerError::InvalidMetadata {
                        name: String::from_str(crate_name),
                        reason: String::from_str("invalid version format"),
                    },
                );
            },
            Some(Some(version)) => version,
        };
        let ghost parsed = reading_views(listed@);
        let mut kept: Vec<Version> = Vec::new();
        let mut i: usize = 0;
        while i < record.versions.len()
            invariant
                i <= record.versions.len(),
                parsed == reading_views(listed@),
                version_views(kept@) == kept_versions(record.versions@, parsed, i as int),
            decreases record.versions.len() - i,
        {
            let ghost before = version_views(kept@);
            if !record.versions[i].yanked && i < listed.len() {
                assert(parsed[i as int] == opt_version(listed@[i as int]));
                match &listed[i] {
                    Some(version) => {
                        kept.push(version.duplicate());
                        assert(version_views(kept@) =~= before.push(version@));
                    },
                    None => {},
                }
            }
            i += 1;
        }
        Ok(
            PluginMetadata {
                crate_name: String::from_str(crate_name),
                plugin_type,
                short_name,
                latest_version,
                versions: kept,
                description: record.description,
                repository: record.repository,
            },
        )
    }

    /// Finds the binary of a plugin among the answers of GitHub Releases.
    ///
    /// The release is looked for under three tag formats in turn
    /// (`v<X.Y.Z>`, `<X.Y.Z>`, `<crate name>-v<X.Y.Z>`); `first`, `second`
    /// and `third` are what the forge answers for each. The first attempt
    /// that finds a release with the asset `<crate name>.wasm` and gets its
    /// bytes decides; where none does, the error is that of the last
    /// attempt.
    pub fn download_wasm(
        &self,
        metadata: &PluginMetadata,
        version: &Version,
        first: &Attempt,
        second: &Attempt,
        third: &Attempt,
    ) -> (r: Result<Vec<u8>, PluginManagerError>)
        ensures
            match metadata.repository {
                None => r is Err && r->Err_0.is_invalid_metadata(
                    metadata.crate_name@,
                    "missing repository URL"@,
                ),
                Some(url) => match github_repo(url@) {
                    None => r is Err && r->Err_0.is_invalid_metadata(
                        metadata.crate_name@,
                        "invalid GitHub repository URL: "@ + url@,
                    ),
                    Some(found) => search_meaning(
                        metadata.crate_name@,
                        display(version@),
                        found.0,
                        found.1,
                        seq![*first, *second, *third],
                        r,
                    ),
                },
            },
    {
        let mut probe = match DownloadProbe::begin(metadata, version) {
            Ok(probe) => probe,
            Err(e) => {
                return Err(e);
            },
        };
        let name = metadata.crate_name.as_str();
        let ghost tags = tag_formats(metadata.crate_name@, display(version@));
        let ghost attempts = seq![*first, *second, *third];
        assert(attempts[0] == *first && attempts[1] == *second && attempts[2] == *third);
        let (tag, url) = match probe.current() {
            Some(request) => request,
            None => {
                return Err(probe.give_up());
            },
        };
        match attempt_outcome(name, tag.as_str(), url.as_str(), first) {
            Ok(bytes) => {
                return Ok(bytes);
            },
            Err(e) => {
                probe.record_failure(e);
            },
        }
        let (tag, url) = match probe.current() {
            Some(request) => request,
            None => {
                return Err(probe.give_up());
            },
        };
        match attempt_outcome(name, tag.as_str(), url.as_str(), second) {
            Ok(bytes) => {
                return Ok(bytes);
            },
            Err(e) => {
                probe.record_failure(e);
            },
        }
        let (tag, url) = match probe.current() {
            Some(request) => request,
            None => {
                return Err(probe.give_up());
            },
        };
        match attempt_outcome(name, tag.as_str(), url.as_str(), third) {
            Ok(bytes) => Ok(bytes),
            Err(e) => {
                probe.record_failure(e);
                Err(probe.give_up())
            },
        }
    }

    /// Decides what an install has to do: which version goes where. Fails
    /// with `AlreadyInstalled`, and changes nothing, where that exact
    /// version of the plugin is on record.
    pub fn plan_install(
        &self,
        registry: &PluginRegistry,
        metadata: &PluginMetadata,
        version: Option<&Version>,
    ) -> (r: Result<InstallPlan, PluginManagerError>)
        ensures
            match r {
                Ok(plan) => {
                    &&& !already_installed(registry.entries(), metadata@.crate_name, plan.version@)
                    &&& plan.version@ == chosen_version(
                        metadata@.latest_version,
                        match version {
                            Some(v) => Some(v@),
                            None => None,
                        },
                    )
                    &&& plan.path@ == plugin_path_of(
                        registry.base(),
                        metadata@.short_name,
                        metadata@.plugin_type,
                        plan.version@,
                    )
                },
                Err(e) => {
                    let wanted = chosen_version(
                        metadata@.latest_version,
                        match version {
                            Some(v) => Some(v@),
                            None => None,
                        },
                    );
                    already_installed(registry.entries(), metadata@.crate_name, wanted)
                        && e.is_already_installed(metadata@.crate_name, display(wanted))
                },
            },
    {
        let wanted = match version {
            Some(v) => v.duplicate(),
            None => metadata.latest_version.duplicate(),
        };
        match registry.get(metadata.crate_name.as_str()) {
            Some(existing) => if same_version(&existing.version, &wanted) {
                return Err(
                    PluginManagerError::AlreadyInstalled {
                        name: metadata.crate_name.clone(),
                        version: wanted.to_string(),
                    },
                );
            },
            None => {},
        }
        let path = registry.storage().plugin_path(
            metadata.short_name.as_str(),
            metadata.plugin_type,
            &wanted,
        );
        Ok(InstallPlan { version: wanted, path })
    }

    /// Puts a plugin whose binary was saved on record: a plugin that is new
    /// to the registry is registered, one that is known is upgraded. After
    /// that the registry holds the record under the plugin's crate name.
    /// Fails with `AlreadyInstalled`, and changes nothing, where that exact
    /// version of the plugin is on record.
    pub fn install(
        &self,
        registry: &mut PluginRegistry,
        metadata: &PluginMetadata,
        version: &Version,
        installed_at: i64,
    ) -> (r: Result<InstalledPlugin, PluginManagerError>)
        requires
            old(registry).wf(),
        ensures
            final(registry).wf(),
            final(registry).base() == old(registry).base(),
            r is Err <==> already_installed(
                old(registry).entries(),
                metadata@.crate_name,
                version@,
            ),
            match r {
                Ok(plugin) => {
                    &&& plugin@ == (crate::registry::InstalledPluginView {
                        crate_name: metadata@.crate_name,
                        plugin_type: metadata@.plugin_type,
                        short_name: metadata@.short_name,
                        version: version@,
                        description: metadata@.description,
                        repository: metadata@.repository,
                        installed_at: installed_at as int,
                    })
                    &&& final(registry).entries() == crate::registry::entries_with(
                        old(registry).entries(),
                        plugin@,
                    )
                    &&& final(registry).has(metadata@.crate_name)
                    &&& record_of(final(registry).entries(), metadata@.crate_name) == Some(
                        plugin@,
                    )
                    &&& forall|other: Seq<char>|
                        other != metadata@.crate_name ==> record_of(
                            final(registry).entries(),
                            other,
                        ) == record_of(old(registry).entries(), other)
                },
                Err(e) => {
                    &&& e.is_already_installed(metadata@.crate_name, display(version@))
                    &&& *final(registry) == *old(registry)
                },
            },
    {
        match self.plan_install(registry, metadata, Some(version)) {
            Ok(_) => {},
            Err(e) => {
                return Err(e);
            },
        }
        let plugin = InstalledPlugin {
            crate_name: metadata.crate_name.clone(),
            plugin_type: metadata.plugin_type,
            short_name: metadata.short_name.clone(),
            version: version.duplicate(),
            description: clone_opt(&metadata.description),
            repository: clone_opt(&metadata.repository),
            installed_at,
        };
        let copy = plugin.duplicate();
        let ghost before = registry.entries();
        if registry.is_installed(metadata.crate_name.as_str()) {
            let _ = registry.upgrade(plugin);
        } else {
            let _ = registry.register(plugin);
        }
        proof {
            crate::registry::lemma_position_of(before, metadata@.crate_name);
            crate::registry::lemma_position_of(registry.entries(), metadata@.crate_name);
            if crate::registry::position_of(before, metadata@.crate_name) is Some {
                let at = crate::registry::position_of(before, metadata@.crate_name)->0;
                crate::registry::lemma_position_is(registry.entries(), metadata@.crate_name, at);
            } else {
                crate::registry::lemma_position_is(
                    registry.entries(),
                    metadata@.crate_name,
                    before.len() as int,
                );
            }
            assert forall|other: Seq<char>| other != metadata@.crate_name implies record_of(
                registry.entries(),
                other,
            ) == record_of(before, other) by {
                crate::registry::lemma_position_of(before, other);
                crate::registry::lemma_position_of(registry.entries(), other);
                if crate::registry::position_of(before, other) is Some {
                    let k = crate::registry::position_of(before, other)->0;
                    crate::registry::lemma_position_is(registry.entries(), other, k);
                }
                if crate::registry::position_of(registry.entries(), other) is Some {
                    let k = crate::registry::position_of(registry.entries(), other)->0;
                    crate::registry::lemma_position_is(before, other, k);
                }
            }
        }
        Ok(copy)
    }

    /// Takes a plugin off the registry and says what to delete from the
    /// store. Fails, and changes nothing, where the plugin is not on record.
    pub fn uninstall(&self, registry: &mut PluginRegistry, crate_name: &str) -> (r: Result<
        Removal,
        PluginManagerError,
    >)
        requires
            old(registry).wf(),
        ensures
            final(registry).wf(),
            final(registry).base() == old(registry).base(),
            match r {
                Ok(removal) => {
                    &&& record_of(old(registry).entries(), crate_name@) == Some(removal.plugin@)
                    &&& final(registry).entries() == crate::registry::entries_without(
                        old(registry).entries(),
                        crate_name@,
                    )
                    &&& !final(registry).has(crate_name@)
                    &&& removal.path@ == plugin_path_of(
                        old(registry).base(),
                        removal.plugin@.short_name,
                        removal.plugin@.plugin_type,
                        removal.plugin@.version,
                    )
                    &&& removal.dir@ == crate::storage::plugin_dir_of(
                        old(registry).base(),
                        removal.plugin@.short_name,
                        removal.plugin@.plugin_type,
                    )
                },
                Err(e) => !old(registry).has(crate_name@) && final(registry).entries() == old(
                    registry,
                ).entries() && e.is_not_found(crate_name@),
            },
    {
        match registry.unregister(crate_name) {
            Err(e) => Err(e),
            Ok(plugin) => {
                let path = registry.storage().plugin_path(
                    plugin.short_name.as_str(),
                    plugin.plugin_type,
                    &plugin.version,
                );
                let dir = registry.storage().plugin_dir(
                    plugin.short_name.as_str(),
                    plugin.plugin_type,
                );
                Ok(Removal { plugin, path, dir })
            },
        }
    }

    /// Picks the plugins out of the crates of a search answer.
    pub fn search(&self, crates: Vec<SearchCrate>) -> (r: Vec<SearchResult>)
        ensures
            result_views(r@) == plugins_among(crates@),
    {
        let mut out: Vec<SearchResult> = Vec::new();
        let mut i: usize = 0;
        while i < crates.len()
            invariant
                i <= crates.len(),
                result_views(out@) == plugins_among(crates@.take(i as int)),
            decreases crates.len() - i,
        {
            let ghost upto = crates@.take(i + 1);
            assert(upto.drop_last() == crates@.take(i as int));
            assert(upto.last() == crates@[i as int]);
            let ghost before = result_views(out@);
            let item = &crates[i];
            match PluginStorage::parse_crate_name(item.name.as_str()) {
                Ok(found) => {
                    let (plugin_type, short_name) = found;
                    let hit = SearchResult {
                        crate_name: item.name.clone(),
                        plugin_type,
                        short_name,
                        description: clone_opt(&item.description),
                        latest_version: clone_opt(&item.max_stable_version),
                        downloads: item.downloads,
                    };
                    out.push(hit);
                    assert(result_views(out@) == before.push(hit@));
                },
                Err(_) => {},
            }
            i += 1;
        }
        assert(crates@.take(crates@.len() as int) == crates@);
        out
    }
}

impl Default for PluginDiscovery {
    fn default() -> PluginDiscovery {
        PluginDiscovery::new()
    }
}

/// Where a release under one of the three tag formats carries the binary
/// and the download gives its bytes, the search resolves to the bytes of the
/// first such release, whatever the other attempts come to.
pub proof fn lemma_probing_finds_the_release(
    crate_name: Seq<char>,
    version: Seq<char>,
    owner: Seq<char>,
    repo: Seq<char>,
    attempts: Seq<Attempt>,
    r: Result<Vec<u8>, PluginManagerError>,
    k: int,
)
    requires
        attempts.len() == 3,
        0 <= k < 3,
        attempt_succeeds(crate_name, attempts[k]),
        forall|j: int| 0 <= j < k ==> !attempt_succeeds(crate_name, attempts[j]),
        search_meaning(crate_name, version, owner, repo, attempts, r),
    ensures
        r is Ok,
        attempts[k].asset matches AssetReply::Bytes(bytes) && r->Ok_0@ == bytes@,
{
}

/// Where no release is there under any of the three tag formats, the search
/// fails with `ReleaseNotFound`.
pub proof fn lemma_probing_reports_absence(
    crate_name: Seq<char>,
    version: Seq<char>,
    owner: Seq<char>,
    repo: Seq<char>,
    attempts: Seq<Attempt>,
    r: Result<Vec<u8>, PluginManagerError>,
)
    requires
        attempts.len() == 3,
        forall|j: int| 0 <= j < 3 ==> attempts[j].release is Missing,
        search_meaning(crate_name, version, owner, repo, attempts, r),
    ensures
        r is Err,
        r->Err_0.is_release_not_found(crate_name, tag_formats(crate_name, version)[2]),
{
    assert(attempts[0].release is Missing);
    assert(attempts[1].release is Missing);
    assert(attempts[2].release is Missing);
}

/// The store as a whole: the binaries on disk, by path, and the records of
/// the registry.
pub struct StoreView {
    pub files: Set<Seq<char>>,
    pub entries: Seq<crate::registry::InstalledPluginView>,
}

/// Where the binary of a record lies, under `base`.
pub open spec fn binary_of(base: Seq<char>, record: crate::registry::InstalledPluginView) -> Seq<
    char,
> {
    plugin_path_of(base, record.short_name, record.plugin_type, record.version)
}

/// The store after an install went through: the binary was saved where the
/// plan said, and the record was put in.
pub open spec fn after_install(
    store: StoreView,
    base: Seq<char>,
    record: crate::registry::InstalledPluginView,
) -> StoreView {
    StoreView {
        files: store.files.insert(binary_of(base, record)),
        entries: crate::registry::entries_with(store.entries, record),
    }
}

/// The store after an uninstall went through: the record was taken out, and
/// its binary was deleted.
pub open spec fn after_uninstall(store: StoreView, base: Seq<char>, name: Seq<char>) -> StoreView {
    match record_of(store.entries, name) {
        Some(record) => StoreView {
            files: store.files.remove(binary_of(base, record)),
            entries: crate::registry::entries_without(store.entries, name),
        },
        None => store,
    }
}

/// After an install both are there: the binary at the path of the plugin's
/// kind, short name and version, and the record under the plugin's crate
/// name. Nothing else in the registry changes.
pub proof fn lemma_install_leaves_both(
    store: StoreView,
    base: Seq<char>,
    record: crate::registry::InstalledPluginView,
    other: Seq<char>,
)
    ensures
        after_install(store, base, record).files.contains(
            plugin_path_of(base, record.short_name, record.plugin_type, record.version),
        ),
        record_of(after_install(store, base, record).entries, record.crate_name) == Some(record),
        other != record.crate_name ==> record_of(after_install(store, base, record).entries, other)
            == record_of(store.entries, other),
{
    crate::registry::lemma_entries_with(store.entries, record, other);
}

/// After an uninstall neither is there: not the record under the crate
/// name, and not the binary that the record stood for.
pub proof fn lemma_uninstall_leaves_neither(store: StoreView, base: Seq<char>, name: Seq<char>)
    requires
        crate::registry::distinct_names(store.entries),
        record_of(store.entries, name) is Some,
    ensures
        record_of(after_uninstall(store, base, name).entries, name) is None,
        !after_uninstall(store, base, name).files.contains(
            binary_of(base, record_of(store.entries, name)->0),
        ),
{
    crate::registry::lemma_entries_without(store.entries, name, name);
}

/// An install and then an uninstall of the same plugin leave the store
/// without the plugin, and the binaries as they were, where the binary was
/// not there before.
pub proof fn lemma_uninstall_undoes_install(
    store: StoreView,
    base: Seq<char>,
    record: crate::registry::InstalledPluginView,
)
    requires
        crate::registry::distinct_names(store.entries),
        !store.files.contains(binary_of(base, record)),
    ensures
        after_uninstall(after_install(store, base, record), base, record.crate_name).files
            == store.files,
        record_of(
            after_uninstall(after_install(store, base, record), base, record.crate_name).entries,
            record.crate_name,
        ) is None,
{
    let installed = after_install(store, base, record);
    crate::registry::lemma_entries_with(store.entries, record, record.crate_name);
    assert(store.files.insert(binary_of(base, record)).remove(binary_of(base, record))
        == store.files);
    crate::registry::lemma_entries_without(installed.entries, record.crate_name, record.crate_name);
}

} // verus!
