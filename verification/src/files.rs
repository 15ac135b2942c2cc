//! Version file updaters.
//!
//! Two shapes of version-bearing file are recognised, by file name and then
//! by extension: keyed-TOML style files (`Cargo.toml`, `*.toml`) and JSON
//! objects with a top-level `version` field (`package.json`, `*.json`).
//! The functions here work on the content of a file; reading it from disk
//! and writing it back is the caller's part.

use crate::paths::pieces;
use crate::text::{chars_of, opt_text, str_eq, substring};
use crate::version::{display, parsed_version, Version, VersionParseError, VersionView};
use crate::version_line::{
    fits_literal, lemma_replaced_literal_is_found, lemma_replacement_keeps_the_rest, literal,
    literal_span, read_literal, replace_literal, with_literal,
};
use vstd::prelude::*;

verus! {

/// Errors that can occur when updating version files.
#[derive(Debug, Clone, PartialEq, Eq)]
pub enum FileUpdateError {
    /// File not found.
    NotFound(String),
    /// Failed to read file.
    ReadError(String),
    /// Failed to parse file.
    ParseError { file: String, reason: String },
    /// Version not found in file.
    VersionNotFound(String),
    /// Unsupported file type.
    UnsupportedFileType(String),
}

/// Result type for file operations.
pub type FileResult<T> = Result<T, FileUpdateError>;

impl FileUpdateError {
    /// The message of the error.
    pub open spec fn message(self) -> Seq<char> {
        match self {
            FileUpdateError::NotFound(path) => "file not found: "@ + path@,
            FileUpdateError::ReadError(reason) => "failed to read file: "@ + reason@,
            FileUpdateError::ParseError { file, reason } => "failed to parse "@ + file@ + ": "@
                + reason@,
            FileUpdateError::VersionNotFound(path) => "version not found in "@ + path@,
            FileUpdateError::UnsupportedFileType(path) => "unsupported file type: "@ + path@,
        }
    }

    /// The error says that the file at `path` does not exist.
    pub open spec fn is_not_found(self, path: Seq<char>) -> bool {
        self matches FileUpdateError::NotFound(p) && p@ == path
    }

    /// The error says that the file at `path` holds no version.
    pub open spec fn is_version_not_found(self, path: Seq<char>) -> bool {
        self matches FileUpdateError::VersionNotFound(p) && p@ == path
    }

    /// The error says that the type of the file at `path` is not supported.
    pub open spec fn is_unsupported(self, path: Seq<char>) -> bool {
        self matches FileUpdateError::UnsupportedFileType(p) && p@ == path
    }

    /// The error says that the file at `path` could not be parsed.
    pub open spec fn is_parse_error(self, path: Seq<char>) -> bool {
        self matches FileUpdateError::ParseError { file, reason } && file@ == path
    }

    /// The error says that the file at `path` could not be parsed, for the
    /// reason `why`.
    pub open spec fn is_parse_error_with(self, path: Seq<char>, why: Seq<char>) -> bool {
        self matches FileUpdateError::ParseError { file, reason } && file@ == path && reason@
            == why
    }

    /// The message of the error.
    pub fn to_string(&self) -> (r: String)
        ensures
            r@ == self.message(),
    {
        match self {
            FileUpdateError::NotFound(path) => {
                let mut out = String::from_str("file not found: ");
                out.append(path.as_str());
                out
            },
            FileUpdateError::ReadError(reason) => {
                let mut out = String::from_str("failed to read file: ");
                out.append(reason.as_str());
                out
            },
            FileUpdateError::ParseError { file, reason } => {
                let mut out = String::from_str("failed to parse ");
                out.append(file.as_str());
                out.append(": ");
                out.append(reason.as_str());
                out
            },
            FileUpdateError::VersionNotFound(path) => {
                let mut out = String::from_str("version not found in ");
                out.append(path.as_str());
                out
            },
            FileUpdateError::UnsupportedFileType(path) => {
                let mut out = String::from_str("unsupported file type: ");
                out.append(path.as_str());
                out
            },
        }
    }
}

/// The shape of a version-bearing file.
#[derive(Debug, Clone, Copy, PartialEq, Eq, Structural)]
pub enum FileKind {
    /// A line `version = "<value>"`.
    KeyedToml,
    /// A JSON object with a top-level `version` field.
    JsonObject,
}

/// The file name of a path: its last component, unless that is `..`.
pub open spec fn file_name(path: Seq<char>) -> Option<Seq<char>> {
    let parts = pieces(path);
    if parts.len() == 0 || parts.last() == seq!['.', '.'] {
        None
    } else {
        Some(parts.last())
    }
}

/// The position of the last `.` of `name`, or -1 where it has none.
pub open spec fn last_dot(name: Seq<char>) -> int
    decreases name.len(),
{
    if name.len() == 0 {
        -1
    } else if name.last() == '.' {
        name.len() - 1
    } else {
        last_dot(name.drop_last())
    }
}

/// The extension of a file name: what follows its last `.`, unless the name
/// begins with that `.` or has none.
pub open spec fn extension(name: Seq<char>) -> Option<Seq<char>> {
    let dot = last_dot(name);
    if dot <= 0 {
        None
    } else {
        Some(name.skip(dot + 1))
    }
}

/// The shape of the file at `path`: decided by the file name where it is
/// `Cargo.toml` or `package.json`, by the extension otherwise.
pub open spec fn kind_of(path: Seq<char>) -> Option<FileKind> {
    match file_name(path) {
        None => None,
        Some(name) => if name == "Cargo.toml"@ {
            Some(FileKind::KeyedToml)
        } else if name == "package.json"@ {
            Some(FileKind::JsonObject)
        } else {
            match extension(name) {
                Some(ext) => if ext == "toml"@ {
                    Some(FileKind::KeyedToml)
                } else if ext == "json"@ {
                    Some(FileKind::JsonObject)
                } else {
                    None
                },
                None => None,
            }
        },
    }
}

proof fn lemma_last_dot(name: Seq<char>, at: int)
    requires
        -1 <= at < name.len(),
        at >= 0 ==> name[at] == '.',
        forall|j: int| at < j < name.len() ==> name[j] != '.',
    ensures
        last_dot(name) == at,
    decreases name.len(),
{
    if name.len() > 0 && name.last() != '.' {
        lemma_last_dot(name.drop_last(), at);
    }
}

proof fn lemma_last_piece(s: Seq<char>, a: int, b: int)
    requires
        0 <= a < b <= s.len(),
        a == 0 || s[a - 1] == '/',
        forall|j: int| a <= j < b ==> s[j] != '/',
        forall|j: int| b <= j < s.len() ==> s[j] == '/',
    ensures
        pieces(s).len() > 0,
        pieces(s).last() == s.subrange(a, b),
    decreases s.len(),
{
    crate::paths::lemma_pieces_unfold(s);
    if s[0] == '/' {
        assert(a > 0);
        lemma_last_piece(s.skip(1), a - 1, b - 1);
        assert(s.skip(1).subrange(a - 1, b - 1) == s.subrange(a, b));
    } else {
        let n = crate::paths::run_length(s);
        if a == 0 {
            crate::paths::lemma_run_length_is(s, b);
            assert(s.take(b) == s.subrange(a, b));
            crate::paths::lemma_no_pieces(s.skip(b));
        } else {
            crate::paths::lemma_run_length_bounds(s);
            assert(n <= a - 1) by {
                if n > a - 1 {
                    assert(s[a - 1] == '/');
                }
            }
            lemma_last_piece(s.skip(n), a - n, b - n);
            assert(s.skip(n).subrange(a - n, b - n) == s.subrange(a, b));
        }
    }
}

proof fn lemma_no_file_name(s: Seq<char>)
    requires
        forall|j: int| 0 <= j < s.len() ==> s[j] == '/',
    ensures
        pieces(s).len() == 0,
{
    crate::paths::lemma_no_pieces(s);
}

/// The shape of the file at `path`.
pub fn file_kind(path: &str) -> (r: Option<FileKind>)
    ensures
        r == kind_of(path@),
{
    let v = chars_of(path);
    // The file name: the last run of characters other than `/`.
    let mut end: usize = v.len();
    while end > 0 && v[end - 1] == '/'
        invariant
            end <= v.len(),
            forall|j: int| end <= j < v.len() ==> v@[j] == '/',
        decreases end,
    {
        end -= 1;
    }
    if end == 0 {
        proof {
            lemma_no_file_name(v@);
        }
        return None;
    }
    let mut start: usize = end;
    while start > 0 && v[start - 1] != '/'
        invariant
            start <= end,
            end <= v.len(),
            forall|j: int| start <= j < end ==> v@[j] != '/',
        decreases start,
    {
        start -= 1;
    }
    proof {
        lemma_last_piece(v@, start as int, end as int);
    }
    let name = substring(&v, start, end);
    proof {
        reveal_strlit("..");
        assert(".."@ == seq!['.', '.']);
    }
    if str_eq(name.as_str(), "..") {
        return None;
    }
    if str_eq(name.as_str(), "Cargo.toml") {
        return Some(FileKind::KeyedToml);
    }
    if str_eq(name.as_str(), "package.json") {
        return Some(FileKind::JsonObject);
    }
    let mut dot: usize = end;
    while dot > start && v[dot - 1] != '.'
        invariant
            start <= dot <= end,
            end <= v.len(),
            forall|j: int| dot <= j < end ==> v@[j] != '.',
        decreases dot,
    {
        dot -= 1;
    }
    proof {
        // `dot` is one past the last `.` of the name, or `start` where it has none.
        lemma_last_dot(name@, dot - start - 1);
    }
    if dot <= start + 1 {
        return None;
    }
    let ext = substring(&v, dot, end);
    assert(ext@ == name@.skip(dot - start));
    if str_eq(ext.as_str(), "toml") {
        Some(FileKind::KeyedToml)
    } else if str_eq(ext.as_str(), "json") {
        Some(FileKind::JsonObject)
    } else {
        None
    }
}

/// What the logic reads of a JSON document.
#[derive(Debug, Clone, PartialEq, Eq)]
pub struct JsonSummary {
    /// The document is an object.
    pub is_object: bool,
    /// It has the field at its top level.
    pub has_field: bool,
    /// The field's value, where the field is there and holds a string.
    pub text: Option<String>,
}

/// The mathematical content of a [`JsonSummary`].
pub struct JsonSummaryView {
    pub is_object: bool,
    pub has_field: bool,
    pub text: Option<Seq<char>>,
}

impl View for JsonSummary {
    type V = JsonSummaryView;

    open spec fn view(&self) -> JsonSummaryView {
        JsonSummaryView {
            is_object: self.is_object,
            has_field: self.has_field,
            text: opt_text(self.text),
        }
    }
}

/// What `serde_json` finds in `text` about the top-level field `field`;
/// `None` where it does not accept `text` as JSON.
pub uninterp spec fn json_summary(text: Seq<char>, field: Seq<char>) -> Option<JsonSummaryView>;

/// The document of `text` with its top-level field `field` set to the string
/// `value`, as `serde_json` renders it with two-space indentation; `None`
/// where `text` is no JSON object or cannot be rendered.
pub uninterp spec fn json_with_field(text: Seq<char>, field: Seq<char>, value: Seq<char>)
    -> Option<Seq<char>>;

/// Why `serde_json` rejected a document.
#[verifier::external_type_specification]
#[verifier::external_body]
pub struct ExJsonError(serde_json::Error);

/// Reads a JSON document and reports on one top-level field. Trusted: calls
/// `serde_json::from_str` for a `Value`, then `Value::is_object`,
/// `Value::get` and `Value::as_str` on the result; the contract names what
/// comes back and says nothing more of it.
#[verifier::external_body]
fn inspect_json(text: &str, field: &str) -> (r: Result<JsonSummary, serde_json::Error>)
    ensures
        match r {
            Ok(summary) => json_summary(text@, field@) == Some(summary@),
            Err(_) => json_summary(text@, field@) is None,
        },
{
    serde_json::from_str::<serde_json::Value>(text).map(
        |v|
            JsonSummary {
                is_object: v.is_object(),
                has_field: v.get(field).is_some(),
                text: v.get(field).and_then(|x| x.as_str()).map(String::from),
            },
    )
}

/// Renders a JSON object with one top-level field replaced. Trusted: calls
/// `serde_json::from_str` for a `Value`, `Value::as_object_mut`,
/// `Map::insert` with a `Value::String`, and `serde_json::to_string_pretty`;
/// `Ok(None)` stands for a document that is no object. The contract names
/// what comes back and says nothing more of it.
#[verifier::external_body]
fn render_json_with(text: &str, field: &str, value: &str) -> (r: Result<
    Option<String>,
    serde_json::Error,
>)
    ensures
        match r {
            Ok(Some(out)) => json_with_field(text@, field@, value@) == Some(out@),
            Ok(None) => json_with_field(text@, field@, value@) is None,
            Err(_) => json_with_field(text@, field@, value@) is None,
        },
{
    let mut doc = serde_json::from_str::<serde_json::Value>(text)?;
    match doc.as_object_mut() {
        Some(map) => {
            map.insert(field.to_string(), serde_json::Value::String(value.to_string()));
        },
        None => return Ok(None),
    }
    serde_json::to_string_pretty(&doc).map(Some)
}

/// The message of a JSON failure. Trusted: calls the `Display` impl of
/// `serde_json::Error`; nothing is promised of the wording.
#[verifier::external_body]
fn describe_json_error(e: &serde_json::Error) -> String {
    e.to_string()
}

/// The error for a file that could not be parsed.
fn parse_error(path: &str, reason: String) -> (r: FileUpdateError)
    ensures
        r.is_parse_error_with(path@, reason@),
{
    FileUpdateError::ParseError { file: String::from_str(path), reason }
}

/// What an update of a keyed-TOML style file comes to, given its content.
pub open spec fn toml_update(content: Seq<char>, version: VersionView) -> Option<Seq<char>> {
    with_literal(content, display(version))
}

/// Updates the version in the content of a keyed-TOML style file. The value
/// of the first `version = "<value>"` line is replaced by the text of the
/// new version; every other character stays as it is. With `dry_run` the
/// content is checked and nothing is returned to write.
pub fn update_cargo_toml(path: &str, content: &str, new_version: &Version, dry_run: bool) -> (r:
    FileResult<Option<String>>)
    ensures
        match r {
            Ok(written) => literal_span(content@) is Some && opt_text(written) == (if dry_run {
                None
            } else {
                toml_update(content@, new_version@)
            }),
            Err(e) => literal_span(content@) is None && e.is_version_not_found(path@),
        },
{
    match replace_literal(content, new_version.to_string().as_str()) {
        Some(updated) => if dry_run {
            Ok(None)
        } else {
            Ok(Some(updated))
        },
        None => Err(FileUpdateError::VersionNotFound(String::from_str(path))),
    }
}

/// Turns the literal found in a file, and what the version parser made of
/// it, into the result of reading the file's version.
pub fn version_from_literal(
    path: &str,
    found: Option<Result<Version, VersionParseError>>,
) -> (r: FileResult<Version>)
    ensures
        match found {
            None => r is Err && r->Err_0.is_version_not_found(path@),
            Some(Ok(v)) => r is Ok && r->Ok_0@ == v@,
            Some(Err(e)) => r is Err && r->Err_0.is_parse_error_with(path@, e.message@),
        },
{
    match found {
        None => Err(FileUpdateError::VersionNotFound(String::from_str(path))),
        Some(Ok(v)) => Ok(v),
        Some(Err(e)) => Err(parse_error(path, e.message)),
    }
}

/// What reading the version of a keyed-TOML style file comes to.
pub open spec fn toml_version(content: Seq<char>) -> Option<VersionView> {
    match literal(content) {
        Some(text) => parsed_version(text),
        None => None,
    }
}

/// Reads the version from the content of a keyed-TOML style file.
pub fn read_cargo_toml_version(path: &str, content: &str) -> (r: FileResult<Version>)
    ensures
        match r {
            Ok(v) => toml_version(content@) == Some(v@),
            Err(e) => if literal(content@) is None {
                e.is_version_not_found(path@)
            } else {
                toml_version(content@) is None && e.is_parse_error(path@)
            },
        },
{
    let found = match read_literal(content) {
        Some(text) => Some(Version::parse(text.as_str())),
        None => None,
    };
    version_from_literal(path, found)
}

/// The field that holds the version of a JSON document.
pub open spec fn version_field() -> Seq<char> {
    "version"@
}

/// Why a JSON document cannot be updated, if it cannot: it does not parse,
/// it is no object, or it has no `version` field.
pub fn check_json_document(path: &str, inspected: Result<JsonSummary, String>) -> (r: FileResult<
    (),
>)
    ensures
        match inspected {
            Err(why) => r is Err && r->Err_0.is_parse_error_with(path@, why@),
            Ok(summary) => if !summary.is_object {
                r is Err && r->Err_0.is_parse_error_with(path@, "not a JSON object"@)
            } else if !summary.has_field {
                r is Err && r->Err_0.is_version_not_found(path@)
            } else {
                r is Ok
            },
        },
{
    match inspected {
        Err(why) => Err(parse_error(path, why)),
        Ok(summary) => if !summary.is_object {
            Err(parse_error(path, String::from_str("not a JSON object")))
        } else if !summary.has_field {
            Err(FileUpdateError::VersionNotFound(String::from_str(path)))
        } else {
            Ok(())
        },
    }
}

/// The content to write for a JSON document that was rendered anew: the
/// rendering and a line feed after it.
pub fn finish_json_update(path: &str, rendered: Result<Option<String>, String>) -> (r: FileResult<
    String,
>)
    ensures
        match rendered {
            Ok(Some(text)) => r is Ok && r->Ok_0@ == text@ + seq!['\n'],
            Ok(None) => r is Err && r->Err_0.is_parse_error_with(path@, "not a JSON object"@),
            Err(why) => r is Err && r->Err_0.is_parse_error_with(path@, why@),
        },
{
    match rendered {
        Ok(Some(text)) => {
            let mut out = text;
            out.append("\n");
            proof {
                reveal_strlit("\n");
                assert("\n"@ == seq!['\n']);
            }
            Ok(out)
        },
        Ok(None) => Err(parse_error(path, String::from_str("not a JSON object"))),
        Err(why) => Err(parse_error(path, why)),
    }
}

/// Whether a JSON document can be updated: it parses, is an object and has a
/// `version` field.
pub open spec fn json_updatable(content: Seq<char>) -> bool {
    json_summary(content, version_field()) matches Some(summary) && summary.is_object
        && summary.has_field
}

/// The document parses and is an object, but has no `version` field.
pub open spec fn json_has_object_without_version(content: Seq<char>) -> bool {
    json_summary(content, version_field()) matches Some(summary) && summary.is_object
        && !summary.has_field
}

/// What an update of a JSON document must come to.
pub open spec fn json_update_outcome(
    content: Seq<char>,
    version: VersionView,
    dry_run: bool,
    r: FileResult<Option<String>>,
) -> bool {
    if !json_updatable(content) {
        r is Err
    } else if dry_run {
        r is Ok && r->Ok_0 is None
    } else {
        match json_with_field(content, version_field(), display(version)) {
            Some(text) => r is Ok && r->Ok_0 is Some && r->Ok_0->0@ == text + seq!['\n'],
            None => r is Err,
        }
    }
}

/// Updates the version in the content of a JSON file. The document must be
/// an object with a top-level `version` field; the field is set to the text
/// of the new version and the document is rendered anew, with two-space
/// indentation and a line feed at the end. With `dry_run` the content is
/// checked and nothing is returned to write.
pub fn update_package_json(path: &str, content: &str, new_version: &Version, dry_run: bool) -> (r:
    FileResult<Option<String>>)
    ensures
        json_update_outcome(content@, new_version@, dry_run, r),
        r is Err ==> (if json_has_object_without_version(content@) {
            r->Err_0.is_version_not_found(path@)
        } else {
            r->Err_0.is_parse_error(path@)
        }),
{
    let inspected = match inspect_json(content, "version") {
        Ok(summary) => Ok(summary),
        Err(e) => Err(describe_json_error(&e)),
    };
    match check_json_document(path, inspected) {
        Err(e) => {
            return Err(e);
        },
        Ok(()) => {},
    }
    if dry_run {
        return Ok(None);
    }
    let rendered = match render_json_with(content, "version", new_version.to_string().as_str()) {
        Ok(out) => Ok(out),
        Err(e) => Err(describe_json_error(&e)),
    };
    match finish_json_update(path, rendered) {
        Ok(out) => Ok(Some(out)),
        Err(e) => Err(e),
    }
}

/// The document parses, but holds no string in a top-level `version` field.
pub open spec fn json_lacks_version_text(content: Seq<char>) -> bool {
    json_summary(content, version_field()) matches Some(summary) && summary.text is None
}

/// What reading the version of a JSON document comes to.
pub open spec fn json_version(content: Seq<char>) -> Option<VersionView> {
    match json_summary(content, version_field()) {
        Some(summary) => match summary.text {
            Some(text) => parsed_version(text),
            None => None,
        },
        None => None,
    }
}

/// Reads the version from the content of a JSON file: the string in the
/// top-level `version` field, read as a version.
pub fn read_package_json_version(path: &str, content: &str) -> (r: FileResult<Version>)
    ensures
        match r {
            Ok(v) => json_version(content@) == Some(v@),
            Err(e) => json_version(content@) is None && (if json_lacks_version_text(content@) {
                e.is_version_not_found(path@)
            } else {
                e.is_parse_error(path@)
            }),
        },
{
    match inspect_json(content, "version") {
        Err(e) => Err(parse_error(path, describe_json_error(&e))),
        Ok(summary) => {
            let found = match summary.text {
                Some(text) => Some(Version::parse(text.as_str())),
                None => None,
            };
            version_from_literal(path, found)
        },
    }
}

/// The error for a path whose file type is not supported.
fn unsupported(path: &str) -> (r: FileUpdateError)
    ensures
        r.is_unsupported(path@),
{
    FileUpdateError::UnsupportedFileType(String::from_str(path))
}

/// The error of an update that fails on a file that is there: a path of no
/// supported type is refused as such; a keyed-TOML style file fails for want
/// of a version line; a JSON file fails for want of the `version` field
/// where it is an object without one, and is reported as unreadable in
/// every other case.
pub open spec fn update_error(path: Seq<char>, content: Seq<char>, e: FileUpdateError) -> bool {
    match kind_of(path) {
        None => e.is_unsupported(path),
        Some(FileKind::KeyedToml) => e.is_version_not_found(path),
        Some(FileKind::JsonObject) => if json_has_object_without_version(content) {
            e.is_version_not_found(path)
        } else {
            e.is_parse_error(path)
        },
    }
}

/// The error of a read that fails on a file that is there: a path of no
/// supported type is refused as such; a file that holds no version text
/// fails for want of it; one whose version text is no version is reported
/// as unreadable.
pub open spec fn read_error(path: Seq<char>, content: Seq<char>, e: FileUpdateError) -> bool {
    match kind_of(path) {
        None => e.is_unsupported(path),
        Some(FileKind::KeyedToml) => if literal(content) is None {
            e.is_version_not_found(path)
        } else {
            e.is_parse_error(path)
        },
        Some(FileKind::JsonObject) => if json_lacks_version_text(content) {
            e.is_version_not_found(path)
        } else {
            e.is_parse_error(path)
        },
    }
}

/// Updates version in a file based on its type.
///
/// `content` is what the file holds, or `None` where the file does not
/// exist. The result is what to write back: `None` for a dry run.
///
/// The file type is looked at first, so a path of an unsupported type is
/// refused whether or not the file exists.
pub fn update_version_file(
    path: &str,
    content: Option<&str>,
    new_version: &Version,
    dry_run: bool,
) -> (r: FileResult<Option<String>>)
    ensures
        kind_of(path@) is None ==> r is Err && r->Err_0.is_unsupported(path@),
        kind_of(path@) is Some && content is None ==> r is Err && r->Err_0.is_not_found(path@),
        kind_of(path@) == Some(FileKind::KeyedToml) && content is Some ==> match r {
            Ok(written) => literal_span(content->0@) is Some && opt_text(written) == (if dry_run {
                None
            } else {
                toml_update(content->0@, new_version@)
            }),
            Err(e) => literal_span(content->0@) is None && e.is_version_not_found(path@),
        },
        kind_of(path@) == Some(FileKind::JsonObject) && content is Some ==> json_update_outcome(
            content->0@,
            new_version@,
            dry_run,
            r,
        ),
        content is Some && r is Err ==> update_error(path@, content->0@, r->Err_0),
        dry_run ==> r is Err || r->Ok_0 is None,
        r matches Ok(Some(written)) ==> file_update(path@, content->0@, new_version@) == Some(
            written@,
        ),
{
    match file_kind(path) {
        None => Err(unsupported(path)),
        Some(kind) => match content {
            None => Err(FileUpdateError::NotFound(String::from_str(path))),
            Some(text) => match kind {
                FileKind::KeyedToml => update_cargo_toml(path, text, new_version, dry_run),
                FileKind::JsonObject => update_package_json(path, text, new_version, dry_run),
            },
        },
    }
}

/// What reading the version of a file comes to, given its path and content.
pub open spec fn file_version(path: Seq<char>, content: Seq<char>) -> Option<VersionView> {
    match kind_of(path) {
        Some(FileKind::KeyedToml) => toml_version(content),
        Some(FileKind::JsonObject) => json_version(content),
        None => None,
    }
}

/// Reads the current version from a file.
///
/// `content` is what the file holds, or `None` where the file does not
/// exist.
pub fn read_version_from_file(path: &str, content: Option<&str>) -> (r: FileResult<Version>)
    ensures
        kind_of(path@) is None ==> r is Err && r->Err_0.is_unsupported(path@),
        kind_of(path@) is Some && content is None ==> r is Err && r->Err_0.is_not_found(path@),
        kind_of(path@) is Some && content is Some ==> match r {
            Ok(v) => file_version(path@, content->0@) == Some(v@),
            Err(e) => file_version(path@, content->0@) is None && read_error(
                path@,
                content->0@,
                e,
            ),
        },
{
    match file_kind(path) {
        None => Err(unsupported(path)),
        Some(kind) => match content {
            None => Err(FileUpdateError::NotFound(String::from_str(path))),
            Some(text) => match kind {
                FileKind::KeyedToml => read_cargo_toml_version(path, text),
                FileKind::JsonObject => read_package_json_version(path, text),
            },
        },
    }
}

/// What an update of a file gives to write, given the file's path and
/// content: the content with the version literal replaced, for a keyed-TOML
/// style file; the document rendered anew with the field set, and a line
/// feed after it, for a JSON file. `None` where the update fails.
pub open spec fn file_update(path: Seq<char>, content: Seq<char>, version: VersionView) -> Option<
    Seq<char>,
> {
    match kind_of(path) {
        None => None,
        Some(FileKind::KeyedToml) => toml_update(content, version),
        Some(FileKind::JsonObject) => if json_updatable(content) {
            match json_with_field(content, version_field(), display(version)) {
                Some(text) => Some(text + seq!['\n']),
                None => None,
            }
        } else {
            None
        },
    }
}

/// Writing a version to a file of keyed-TOML style and reading that file
/// again gives the version back, whatever the file is called: for every
/// path of that type, every content that holds a version line, and every
/// version whose text holds no double quote and is read back by the version
/// parser.
pub proof fn lemma_version_file_round_trip(
    path: Seq<char>,
    content: Seq<char>,
    version: VersionView,
)
    requires
        kind_of(path) == Some(FileKind::KeyedToml),
        literal_span(content) is Some,
        fits_literal(display(version)),
        parsed_version(display(version)) == Some(version),
    ensures
        file_update(path, content, version) is Some,
        file_version(path, file_update(path, content, version)->0) == Some(version),
{
    lemma_toml_round_trip(content, version);
}

/// Writing a version to a keyed-TOML style file and reading the file again
/// gives that version back, for every content that holds a version line and
/// every version whose text holds no double quote and is read back by the
/// version parser. The write changes the literal and nothing else: what
/// stands before it and after it stays as it was.
pub proof fn lemma_toml_round_trip(content: Seq<char>, version: VersionView)
    requires
        literal_span(content) is Some,
        fits_literal(display(version)),
        parsed_version(display(version)) == Some(version),
    ensures
        toml_update(content, version) is Some,
        toml_version(toml_update(content, version)->0) == Some(version),
        toml_update(content, version)->0.take(literal_span(content)->0.start) == content.take(
            literal_span(content)->0.start,
        ),
        toml_update(content, version)->0.skip(
            literal_span(content)->0.start + display(version).len(),
        ) == content.skip(literal_span(content)->0.end),
{
    lemma_replaced_literal_is_found(content, display(version));
    lemma_replacement_keeps_the_rest(content, display(version));
}

} // verus!
