//! Conventional Commits + Gitmoji parser plugin.
//!
//! Supports the gitmojis of <https://gitmoji.dev>, written as an emoji or as
//! a text code such as `:sparkles:`.

use crate::commit::{
    first_line, opt_commit, ParsedCommit, ParsedCommitView, RawCommit, RawCommitView,
};
use crate::parsers::ConventionalParser;
use crate::plugin::{CommitParser, Plugin, PACKAGE_VERSION};
use crate::text::{chars_of, has_prefix, matches_at, str_eq, substring};
use vstd::prelude::*;

verus! {

/// A gitmoji entry with its emoji, text code, and commit type.
#[derive(Debug, Clone, Copy, PartialEq, Eq)]
pub struct Gitmoji {
    pub emoji: &'static str,
    pub code: &'static str,
    pub commit_type: &'static str,
}

/// The mathematical content of a [`Gitmoji`].
pub struct GitmojiView {
    pub emoji: Seq<char>,
    pub code: Seq<char>,
    pub commit_type: Seq<char>,
}

impl View for Gitmoji {
    type V = GitmojiView;

    open spec fn view(&self) -> GitmojiView {
        GitmojiView { emoji: self.emoji@, code: self.code@, commit_type: self.commit_type@ }
    }
}

/// The views of a list of gitmojis.
pub open spec fn gitmoji_views(list: Seq<Gitmoji>) -> Seq<GitmojiView> {
    list.map_values(|g: Gitmoji| g@)
}

/// One entry of the table.
pub open spec fn entry(emoji: Seq<char>, code: Seq<char>, commit_type: Seq<char>) -> GitmojiView {
    GitmojiView { emoji, code, commit_type }
}
/// The first part of the table of gitmojis.
pub open spec fn first_gitmojis() -> Seq<GitmojiView> {
    seq![
        entry("\u{2728}"@, ":sparkles:"@, "feat"@),
        entry("\u{1F389}"@, ":tada:"@, "feat"@),
        entry("\u{1F6A9}"@, ":triangular_flag_on_post:"@, "feat"@),
        entry("\u{1F454}"@, ":necktie:"@, "feat"@),
        entry("\u{1F9BA}"@, ":safety_vest:"@, "feat"@),
        entry("\u{1F996}"@, ":t-rex:"@, "feat"@),
        entry("\u{2708}\u{FE0F}"@, ":airplane:"@, "feat"@),
        entry("\u{1F41B}"@, ":bug:"@, "fix"@),
        entry("\u{1F691}\u{FE0F}"@, ":ambulance:"@, "fix"@),
        entry("\u{1F691}"@, ":ambulance:"@, "fix"@),
        entry("\u{1FA79}"@, ":adhesive_bandage:"@, "fix"@),
        entry("\u{270F}\u{FE0F}"@, ":pencil2:"@, "fix"@),
        entry("\u{1F945}"@, ":goal_net:"@, "fix"@),
        entry("\u{1F6A8}"@, ":rotating_light:"@, "fix"@),
        entry("\u{1F4DD}"@, ":memo:"@, "docs"@),
        entry("\u{1F4A1}"@, ":bulb:"@, "docs"@),
        entry("\u{1F4C4}"@, ":page_facing_up:"@, "docs"@),
        entry("\u{1F465}"@, ":busts_in_silhouette:"@, "docs"@),
        entry("\u{1F3A8}"@, ":art:"@, "style"@),
        entry("\u{1F484}"@, ":lipstick:"@, "style"@),
        entry("\u{1F4F1}"@, ":iphone:"@, "style"@),
        entry("\u{267B}\u{FE0F}"@, ":recycle:"@, "refactor"@),
        entry("\u{1F69A}"@, ":truck:"@, "refactor"@),
        entry("\u{1F3D7}\u{FE0F}"@, ":building_construction:"@, "refactor"@),
        entry("\u{1F3D7}"@, ":building_construction:"@, "refactor"@),
        entry("\u{26A1}\u{FE0F}"@, ":zap:"@, "perf"@),
        entry("\u{26A1}"@, ":zap:"@, "perf"@),
        entry("\u{1F9F5}"@, ":thread:"@, "perf"@),
        entry("\u{2705}"@, ":white_check_mark:"@, "test"@),
        entry("\u{1F9EA}"@, ":test_tube:"@, "test"@),
    ]
}

/// The second part of the table of gitmojis.
pub open spec fn second_gitmojis() -> Seq<GitmojiView> {
    seq![
        entry("\u{1F921}"@, ":clown_face:"@, "test"@),
        entry("\u{1F4E6}\u{FE0F}"@, ":package:"@, "build"@),
        entry("\u{1F4E6}"@, ":package:"@, "build"@),
        entry("\u{1F528}"@, ":hammer:"@, "build"@),
        entry("\u{1F477}"@, ":construction_worker:"@, "ci"@),
        entry("\u{1F49A}"@, ":green_heart:"@, "ci"@),
        entry("\u{1F527}"@, ":wrench:"@, "chore"@),
        entry("\u{1F6A7}"@, ":construction:"@, "chore"@),
        entry("\u{1F5D1}\u{FE0F}"@, ":wastebasket:"@, "chore"@),
        entry("\u{1F5D1}"@, ":wastebasket:"@, "chore"@),
        entry("\u{1F648}"@, ":see_no_evil:"@, "chore"@),
        entry("\u{1F4A9}"@, ":poop:"@, "chore"@),
        entry("\u{1F37B}"@, ":beers:"@, "chore"@),
        entry("\u{1F95A}"@, ":egg:"@, "chore"@),
        entry("\u{1F525}"@, ":fire:"@, "chore"@),
        entry("\u{26B0}\u{FE0F}"@, ":coffin:"@, "chore"@),
        entry("\u{26B0}"@, ":coffin:"@, "chore"@),
        entry("\u{1F50A}"@, ":loud_sound:"@, "chore"@),
        entry("\u{1F507}"@, ":mute:"@, "chore"@),
        entry("\u{1F4C8}"@, ":chart_with_upwards_trend:"@, "chore"@),
        entry("\u{1F47D}\u{FE0F}"@, ":alien:"@, "chore"@),
        entry("\u{1F47D}"@, ":alien:"@, "chore"@),
        entry("\u{1F371}"@, ":bento:"@, "chore"@),
        entry("\u{1F4F8}"@, ":camera_flash:"@, "chore"@),
        entry("\u{1F4AC}"@, ":speech_balloon:"@, "chore"@),
        entry("\u{1F500}"@, ":twisted_rightwards_arrows:"@, "chore"@),
        entry("\u{1F50D}\u{FE0F}"@, ":mag:"@, "chore"@),
        entry("\u{1F50D}"@, ":mag:"@, "chore"@),
        entry("\u{2697}\u{FE0F}"@, ":alembic:"@, "chore"@),
        entry("\u{2697}"@, ":alembic:"@, "chore"@),
    ]
}

/// The third part of the table of gitmojis.
pub open spec fn third_gitmojis() -> Seq<GitmojiView> {
    seq![
        entry("\u{1FA7A}"@, ":stethoscope:"@, "chore"@),
        entry("\u{1F9F1}"@, ":bricks:"@, "chore"@),
        entry("\u{1F4B8}"@, ":money_with_wings:"@, "chore"@),
        entry("\u{1F9D0}"@, ":monocle_face:"@, "chore"@),
        entry("\u{2B06}\u{FE0F}"@, ":arrow_up:"@, "deps"@),
        entry("\u{2B07}\u{FE0F}"@, ":arrow_down:"@, "deps"@),
        entry("\u{1F4CC}"@, ":pushpin:"@, "deps"@),
        entry("\u{2795}"@, ":heavy_plus_sign:"@, "deps"@),
        entry("\u{2796}"@, ":heavy_minus_sign:"@, "deps"@),
        entry("\u{1F512}\u{FE0F}"@, ":lock:"@, "security"@),
        entry("\u{1F512}"@, ":lock:"@, "security"@),
        entry("\u{1F510}"@, ":closed_lock_with_key:"@, "security"@),
        entry("\u{1F6C2}"@, ":passport_control:"@, "security"@),
        entry("\u{1F680}"@, ":rocket:"@, "release"@),
        entry("\u{1F516}"@, ":bookmark:"@, "release"@),
        entry("\u{1F4A5}"@, ":boom:"@, "breaking"@),
        entry("\u{23EA}\u{FE0F}"@, ":rewind:"@, "revert"@),
        entry("\u{23EA}"@, ":rewind:"@, "revert"@),
        entry("\u{1F310}"@, ":globe_with_meridians:"@, "i18n"@),
        entry("\u{267F}\u{FE0F}"@, ":wheelchair:"@, "a11y"@),
        entry("\u{267F}"@, ":wheelchair:"@, "a11y"@),
        entry("\u{1F5C3}\u{FE0F}"@, ":card_file_box:"@, "db"@),
        entry("\u{1F5C3}"@, ":card_file_box:"@, "db"@),
        entry("\u{1F331}"@, ":seedling:"@, "db"@),
        entry("\u{1F6B8}"@, ":children_crossing:"@, "ux"@),
        entry("\u{1F4AB}"@, ":dizzy:"@, "ux"@),
        entry("\u{1F3F7}\u{FE0F}"@, ":label:"@, "types"@),
        entry("\u{1F3F7}"@, ":label:"@, "types"@),
        entry("\u{1F9D1}\u{200D}\u{1F4BB}"@, ":technologist:"@, "dx"@),
    ]
}

/// All gitmojis with their commit types, in the order in which they are
/// tried. An emoji that may be followed by a variation selector stands with
/// the selector first and without it second.
pub open spec fn gitmoji_table() -> Seq<GitmojiView> {
    first_gitmojis() + second_gitmojis() + third_gitmojis()
}

/// The first part of the table of gitmojis.
fn first_part() -> (r: Vec<Gitmoji>)
    ensures
        gitmoji_views(r@) == first_gitmojis(),
{
    let mut list: Vec<Gitmoji> = Vec::new();
    list.push(Gitmoji { emoji: "\u{2728}", code: ":sparkles:", commit_type: "feat" });
    list.push(Gitmoji { emoji: "\u{1F389}", code: ":tada:", commit_type: "feat" });
    list.push(Gitmoji { emoji: "\u{1F6A9}", code: ":triangular_flag_on_post:", commit_type: "feat" });
    list.push(Gitmoji { emoji: "\u{1F454}", code: ":necktie:", commit_type: "feat" });
    list.push(Gitmoji { emoji: "\u{1F9BA}", code: ":safety_vest:", commit_type: "feat" });
    list.push(Gitmoji { emoji: "\u{1F996}", code: ":t-rex:", commit_type: "feat" });
    list.push(Gitmoji { emoji: "\u{2708}\u{FE0F}", code: ":airplane:", commit_type: "feat" });
    list.push(Gitmoji { emoji: "\u{1F41B}", code: ":bug:", commit_type: "fix" });
    list.push(Gitmoji { emoji: "\u{1F691}\u{FE0F}", code: ":ambulance:", commit_type: "fix" });
    list.push(Gitmoji { emoji: "\u{1F691}", code: ":ambulance:", commit_type: "fix" });
    list.push(Gitmoji { emoji: "\u{1FA79}", code: ":adhesive_bandage:", commit_type: "fix" });
    list.push(Gitmoji { emoji: "\u{270F}\u{FE0F}", code: ":pencil2:", commit_type: "fix" });
    list.push(Gitmoji { emoji: "\u{1F945}", code: ":goal_net:", commit_type: "fix" });
    list.push(Gitmoji { emoji: "\u{1F6A8}", code: ":rotating_light:", commit_type: "fix" });
    list.push(Gitmoji { emoji: "\u{1F4DD}", code: ":memo:", commit_type: "docs" });
    list.push(Gitmoji { emoji: "\u{1F4A1}", code: ":bulb:", commit_type: "docs" });
    list.push(Gitmoji { emoji: "\u{1F4C4}", code: ":page_facing_up:", commit_type: "docs" });
    list.push(Gitmoji { emoji: "\u{1F465}", code: ":busts_in_silhouette:", commit_type: "docs" });
    list.push(Gitmoji { emoji: "\u{1F3A8}", code: ":art:", commit_type: "style" });
    list.push(Gitmoji { emoji: "\u{1F484}", code: ":lipstick:", commit_type: "style" });
    list.push(Gitmoji { emoji: "\u{1F4F1}", code: ":iphone:", commit_type: "style" });
    list.push(Gitmoji { emoji: "\u{267B}\u{FE0F}", code: ":recycle:", commit_type: "refactor" });
    list.push(Gitmoji { emoji: "\u{1F69A}", code: ":truck:", commit_type: "refactor" });
    list.push(Gitmoji { emoji: "\u{1F3D7}\u{FE0F}", code: ":building_construction:", commit_type: "refactor" });
    list.push(Gitmoji { emoji: "\u{1F3D7}", code: ":building_construction:", commit_type: "refactor" });
    list.push(Gitmoji { emoji: "\u{26A1}\u{FE0F}", code: ":zap:", commit_type: "perf" });
    list.push(Gitmoji { emoji: "\u{26A1}", code: ":zap:", commit_type: "perf" });
    list.push(Gitmoji { emoji: "\u{1F9F5}", code: ":thread:", commit_type: "perf" });
    list.push(Gitmoji { emoji: "\u{2705}", code: ":white_check_mark:", commit_type: "test" });
    list.push(Gitmoji { emoji: "\u{1F9EA}", code: ":test_tube:", commit_type: "test" });
    assert(gitmoji_views(list@) =~= first_gitmojis());
    list
}

/// The second part of the table of gitmojis.
fn second_part() -> (r: Vec<Gitmoji>)
    ensures
        gitmoji_views(r@) == second_gitmojis(),
{
    let mut list: Vec<Gitmoji> = Vec::new();
    list.push(Gitmoji { emoji: "\u{1F921}", code: ":clown_face:", commit_type: "test" });
    list.push(Gitmoji { emoji: "\u{1F4E6}\u{FE0F}", code: ":package:", commit_type: "build" });
    list.push(Gitmoji { emoji: "\u{1F4E6}", code: ":package:", commit_type: "build" });
    list.push(Gitmoji { emoji: "\u{1F528}", code: ":hammer:", commit_type: "build" });
    list.push(Gitmoji { emoji: "\u{1F477}", code: ":construction_worker:", commit_type: "ci" });
    list.push(Gitmoji { emoji: "\u{1F49A}", code: ":green_heart:", commit_type: "ci" });
    list.push(Gitmoji { emoji: "\u{1F527}", code: ":wrench:", commit_type: "chore" });
    list.push(Gitmoji { emoji: "\u{1F6A7}", code: ":construction:", commit_type: "chore" });
    list.push(Gitmoji { emoji: "\u{1F5D1}\u{FE0F}", code: ":wastebasket:", commit_type: "chore" });
    list.push(Gitmoji { emoji: "\u{1F5D1}", code: ":wastebasket:", commit_type: "chore" });
    list.push(Gitmoji { emoji: "\u{1F648}", code: ":see_no_evil:", commit_type: "chore" });
    list.push(Gitmoji { emoji: "\u{1F4A9}", code: ":poop:", commit_type: "chore" });
    list.push(Gitmoji { emoji: "\u{1F37B}", code: ":beers:", commit_type: "chore" });
    list.push(Gitmoji { emoji: "\u{1F95A}", code: ":egg:", commit_type: "chore" });
    list.push(Gitmoji { emoji: "\u{1F525}", code: ":fire:", commit_type: "chore" });
    list.push(Gitmoji { emoji: "\u{26B0}\u{FE0F}", code: ":coffin:", commit_type: "chore" });
    list.push(Gitmoji { emoji: "\u{26B0}", code: ":coffin:", commit_type: "chore" });
    list.push(Gitmoji { emoji: "\u{1F50A}", code: ":loud_sound:", commit_type: "chore" });
    list.push(Gitmoji { emoji: "\u{1F507}", code: ":mute:", commit_type: "chore" });
    list.push(Gitmoji { emoji: "\u{1F4C8}", code: ":chart_with_upwards_trend:", commit_type: "chore" });
    list.push(Gitmoji { emoji: "\u{1F47D}\u{FE0F}", code: ":alien:", commit_type: "chore" });
    list.push(Gitmoji { emoji: "\u{1F47D}", code: ":alien:", commit_type: "chore" });
    list.push(Gitmoji { emoji: "\u{1F371}", code: ":bento:", commit_type: "chore" });
    list.push(Gitmoji { emoji: "\u{1F4F8}", code: ":camera_flash:", commit_type: "chore" });
    list.push(Gitmoji { emoji: "\u{1F4AC}", code: ":speech_balloon:", commit_type: "chore" });
    list.push(Gitmoji { emoji: "\u{1F500}", code: ":twisted_rightwards_arrows:", commit_type: "chore" });
    list.push(Gitmoji { emoji: "\u{1F50D}\u{FE0F}", code: ":mag:", commit_type: "chore" });
    list.push(Gitmoji { emoji: "\u{1F50D}", code: ":mag:", commit_type: "chore" });
    list.push(Gitmoji { emoji: "\u{2697}\u{FE0F}", code: ":alembic:", commit_type: "chore" });
    list.push(Gitmoji { emoji: "\u{2697}", code: ":alembic:", commit_type: "chore" });
    assert(gitmoji_views(list@) =~= second_gitmojis());
    list
}

/// The third part of the table of gitmojis.
fn third_part() -> (r: Vec<Gitmoji>)
    ensures
        gitmoji_views(r@) == third_gitmojis(),
{
    let mut list: Vec<Gitmoji> = Vec::new();
    list.push(Gitmoji { emoji: "\u{1FA7A}", code: ":stethoscope:", commit_type: "chore" });
    list.push(Gitmoji { emoji: "\u{1F9F1}", code: ":bricks:", commit_type: "chore" });
    list.push(Gitmoji { emoji: "\u{1F4B8}", code: ":money_with_wings:", commit_type: "chore" });
    list.push(Gitmoji { emoji: "\u{1F9D0}", code: ":monocle_face:", commit_type: "chore" });
    list.push(Gitmoji { emoji: "\u{2B06}\u{FE0F}", code: ":arrow_up:", commit_type: "deps" });
    list.push(Gitmoji { emoji: "\u{2B07}\u{FE0F}", code: ":arrow_down:", commit_type: "deps" });
    list.push(Gitmoji { emoji: "\u{1F4CC}", code: ":pushpin:", commit_type: "deps" });
    list.push(Gitmoji { emoji: "\u{2795}", code: ":heavy_plus_sign:", commit_type: "deps" });
    list.push(Gitmoji { emoji: "\u{2796}", code: ":heavy_minus_sign:", commit_type: "deps" });
    list.push(Gitmoji { emoji: "\u{1F512}\u{FE0F}", code: ":lock:", commit_type: "security" });
    list.push(Gitmoji { emoji: "\u{1F512}", code: ":lock:", commit_type: "security" });
    list.push(Gitmoji { emoji: "\u{1F510}", code: ":closed_lock_with_key:", commit_type: "security" });
    list.push(Gitmoji { emoji: "\u{1F6C2}", code: ":passport_control:", commit_type: "security" });
    list.push(Gitmoji { emoji: "\u{1F680}", code: ":rocket:", commit_type: "release" });
    list.push(Gitmoji { emoji: "\u{1F516}", code: ":bookmark:", commit_type: "release" });
    list.push(Gitmoji { emoji: "\u{1F4A5}", code: ":boom:", commit_type: "breaking" });
    list.push(Gitmoji { emoji: "\u{23EA}\u{FE0F}", code: ":rewind:", commit_type: "revert" });
    list.push(Gitmoji { emoji: "\u{23EA}", code: ":rewind:", commit_type: "revert" });
    list.push(Gitmoji { emoji: "\u{1F310}", code: ":globe_with_meridians:", commit_type: "i18n" });
    list.push(Gitmoji { emoji: "\u{267F}\u{FE0F}", code: ":wheelchair:", commit_type: "a11y" });
    list.push(Gitmoji { emoji: "\u{267F}", code: ":wheelchair:", commit_type: "a11y" });
    list.push(Gitmoji { emoji: "\u{1F5C3}\u{FE0F}", code: ":card_file_box:", commit_type: "db" });
    list.push(Gitmoji { emoji: "\u{1F5C3}", code: ":card_file_box:", commit_type: "db" });
    list.push(Gitmoji { emoji: "\u{1F331}", code: ":seedling:", commit_type: "db" });
    list.push(Gitmoji { emoji: "\u{1F6B8}", code: ":children_crossing:", commit_type: "ux" });
    list.push(Gitmoji { emoji: "\u{1F4AB}", code: ":dizzy:", commit_type: "ux" });
    list.push(Gitmoji { emoji: "\u{1F3F7}\u{FE0F}", code: ":label:", commit_type: "types" });
    list.push(Gitmoji { emoji: "\u{1F3F7}", code: ":label:", commit_type: "types" });
    list.push(Gitmoji { emoji: "\u{1F9D1}\u{200D}\u{1F4BB}", code: ":technologist:", commit_type: "dx" });
    assert(gitmoji_views(list@) =~= third_gitmojis());
    list
}

/// All gitmojis with their commit types.
pub fn gitmojis() -> (r: Vec<Gitmoji>)
    ensures
        gitmoji_views(r@) == gitmoji_table(),
{
    let mut list = first_part();
    let mut second = second_part();
    let mut third = third_part();
    let ghost a = list@;
    let ghost b = second@;
    list.append(&mut second);
    assert(gitmoji_views(list@) =~= gitmoji_views(a) + gitmoji_views(b));
    let ghost ab = list@;
    let ghost c = third@;
    list.append(&mut third);
    assert(gitmoji_views(list@) =~= gitmoji_views(ab) + gitmoji_views(c));
    list
}

/// Checks if a character is likely an emoji.
pub open spec fn emoji_like(c: char) -> bool {
    let code = c as u32;
    (0x1F300 <= code <= 0x1F9FF) || (0x2600 <= code <= 0x26FF) || (0x2700 <= code <= 0x27BF) || (
    0x1F600 <= code <= 0x1F64F) || (0x1F680 <= code <= 0x1F6FF) || (0x2300 <= code <= 0x23FF)
        || code == 0x2B50 || code == 0x2714 || code == 0x2716
}

/// Checks if a character is an emoji modifier (variation selector, zero
/// width joiner, skin tone).
pub open spec fn modifier_like(c: char) -> bool {
    let code = c as u32;
    code == 0xFE0F || code == 0xFE0E || code == 0x200D || (0x1F3FB <= code <= 0x1F3FF)
}

/// Whether a character is white space, as Unicode defines it.
pub open spec fn space_like(c: char) -> bool {
    let code = c as u32;
    (0x09 <= code <= 0x0D) || code == 0x20 || code == 0x85 || code == 0xA0 || code == 0x1680 || (
    0x2000 <= code <= 0x200A) || code == 0x2028 || code == 0x2029 || code == 0x202F || code
        == 0x205F || code == 0x3000
}

/// Checks if a character is likely an emoji.
pub fn is_emoji_char(c: char) -> (r: bool)
    ensures
        r == emoji_like(c),
{
    let code = c as u32;
    (0x1F300 <= code && code <= 0x1F9FF) || (0x2600 <= code && code <= 0x26FF) || (0x2700 <= code
        && code <= 0x27BF) || (0x1F600 <= code && code <= 0x1F64F) || (0x1F680 <= code && code
        <= 0x1F6FF) || (0x2300 <= code && code <= 0x23FF) || code == 0x2B50 || code == 0x2714
        || code == 0x2716
}

/// Checks if a character is an emoji modifier (variation selector, ZWJ, skin tone).
pub fn is_emoji_modifier(c: char) -> (r: bool)
    ensures
        r == modifier_like(c),
{
    let code = c as u32;
    code == 0xFE0F || code == 0xFE0E || code == 0x200D || (0x1F3FB <= code && code <= 0x1F3FF)
}

/// Whether a character is white space.
fn is_space(c: char) -> (r: bool)
    ensures
        r == space_like(c),
{
    let code = c as u32;
    (0x09 <= code && code <= 0x0D) || code == 0x20 || code == 0x85 || code == 0xA0 || code
        == 0x1680 || (0x2000 <= code && code <= 0x200A) || code == 0x2028 || code == 0x2029
        || code == 0x202F || code == 0x205F || code == 0x3000
}

/// The first position at or after `i` that holds no white space.
pub open spec fn after_spaces(s: Seq<char>, i: int) -> int
    decreases s.len() - i,
{
    if 0 <= i < s.len() && space_like(s[i]) {
        after_spaces(s, i + 1)
    } else {
        i
    }
}

/// The first position at or after `i` that holds no emoji modifier.
pub open spec fn after_modifiers(s: Seq<char>, i: int) -> int
    decreases s.len() - i,
{
    if 0 <= i < s.len() && modifier_like(s[i]) {
        after_modifiers(s, i + 1)
    } else {
        i
    }
}

/// The first position at or after `i` that holds a colon, or the end of `s`.
pub open spec fn next_colon(s: Seq<char>, i: int) -> int
    decreases s.len() - i,
{
    if 0 <= i < s.len() && s[i] != ':' {
        next_colon(s, i + 1)
    } else {
        i
    }
}

/// What stands in `s` from `i` on, without the white space it begins with.
pub open spec fn rest_from(s: Seq<char>, i: int) -> Seq<char> {
    s.skip(after_spaces(s, i))
}

/// The last entry of the first `n` entries of the table that has the text
/// code `code`.
pub open spec fn entry_of_code(table: Seq<GitmojiView>, code: Seq<char>, n: int) -> Option<int>
    decreases n,
{
    if n <= 0 {
        None
    } else if table[n - 1].code == code {
        Some(n - 1)
    } else {
        entry_of_code(table, code, n - 1)
    }
}

/// The first entry, from entry `i` on, whose emoji `s` begins with.
pub open spec fn entry_of_prefix(table: Seq<GitmojiView>, s: Seq<char>, i: int) -> Option<int>
    decreases table.len() - i,
{
    if i < 0 || i >= table.len() {
        None
    } else if has_prefix(s, table[i].emoji) {
        Some(i)
    } else {
        entry_of_prefix(table, s, i + 1)
    }
}

/// The first entry, from entry `i` on, whose emoji is `emoji`.
pub open spec fn entry_of_emoji(table: Seq<GitmojiView>, emoji: Seq<char>, i: int) -> Option<int>
    decreases table.len() - i,
{
    if i < 0 || i >= table.len() {
        None
    } else if table[i].emoji == emoji {
        Some(i)
    } else {
        entry_of_emoji(table, emoji, i + 1)
    }
}

/// The commit type that the table gives to an emoji.
pub open spec fn type_of_emoji(emoji: Seq<char>) -> Option<Seq<char>> {
    match entry_of_emoji(gitmoji_table(), emoji, 0) {
        Some(i) => Some(gitmoji_table()[i].commit_type),
        None => None,
    }
}

/// A gitmoji taken from the beginning of a text.
pub struct ExtractedGitmoji {
    /// The emoji character (even if input was text code).
    pub emoji: String,
    /// The remaining string after the gitmoji.
    pub rest: String,
}

/// The text code that `s` begins with: from its first character, a colon,
/// up to the next colon. The result is the position after that colon.
pub open spec fn code_end(s: Seq<char>) -> Option<int> {
    if s.len() > 0 && s[0] == ':' && next_colon(s, 1) < s.len() {
        Some(next_colon(s, 1) + 1)
    } else {
        None
    }
}

/// The gitmoji that `s` begins with, as a pair of emoji and rest:
/// a known text code gives its emoji; failing that, a known emoji gives
/// itself; failing that, a character that looks like an emoji gives itself
/// and the modifiers that follow it. The rest is what follows, without the
/// white space it begins with.
pub open spec fn extracted(s: Seq<char>) -> Option<(Seq<char>, Seq<char>)> {
    let table = gitmoji_table();
    let by_code = match code_end(s) {
        Some(end) => entry_of_code(table, s.take(end), table.len() as int),
        None => None,
    };
    match by_code {
        Some(i) => Some((table[i].emoji, rest_from(s, code_end(s)->0))),
        None => match entry_of_prefix(table, s, 0) {
            Some(i) => Some((table[i].emoji, rest_from(s, table[i].emoji.len() as int))),
            None => if s.len() > 0 && emoji_like(s[0]) {
                Some((s.take(after_modifiers(s, 1)), rest_from(s, after_modifiers(s, 1))))
            } else {
                None
            },
        },
    }
}

/// The position of the first character at or after `i` that is no white
/// space.
fn skip_spaces(v: &Vec<char>, i: usize) -> (r: usize)
    requires
        i <= v.len(),
    ensures
        r == after_spaces(v@, i as int),
        i <= r <= v.len(),
{
    let mut j: usize = i;
    while j < v.len() && is_space(v[j])
        invariant
            i <= j <= v.len(),
            after_spaces(v@, i as int) == after_spaces(v@, j as int),
        decreases v.len() - j,
    {
        j += 1;
    }
    j
}

/// The entry for a text code.
fn find_code(table: &Vec<Gitmoji>, code: &str) -> (r: Option<usize>)
    ensures
        match r {
            Some(i) => entry_of_code(gitmoji_views(table@), code@, table@.len() as int) == Some(
                i as int,
            ) && i < table.len(),
            None => entry_of_code(gitmoji_views(table@), code@, table@.len() as int) is None,
        },
{
    let mut n: usize = table.len();
    while n > 0
        invariant
            n <= table.len(),
            entry_of_code(gitmoji_views(table@), code@, table@.len() as int) == entry_of_code(
                gitmoji_views(table@),
                code@,
                n as int,
            ),
        decreases n,
    {
        assert(gitmoji_views(table@)[n - 1].code == table@[n - 1].code@);
        if str_eq(table[n - 1].code, code) {
            return Some(n - 1);
        }
        n -= 1;
    }
    None
}

/// The entry whose emoji the text begins with.
fn find_prefix(table: &Vec<Gitmoji>, v: &Vec<char>) -> (r: Option<usize>)
    ensures
        match r {
            Some(i) => entry_of_prefix(gitmoji_views(table@), v@, 0) == Some(i as int) && i
                < table.len() && has_prefix(v@, table@[i as int].emoji@),
            None => entry_of_prefix(gitmoji_views(table@), v@, 0) is None,
        },
{
    let mut i: usize = 0;
    while i < table.len()
        invariant
            i <= table.len(),
            entry_of_prefix(gitmoji_views(table@), v@, 0) == entry_of_prefix(
                gitmoji_views(table@),
                v@,
                i as int,
            ),
        decreases table.len() - i,
    {
        let emoji = chars_of(table[i].emoji);
        assert(gitmoji_views(table@)[i as int].emoji == emoji@);
        if matches_at(v, &emoji, 0) {
            return Some(i);
        }
        i += 1;
    }
    None
}

/// The commit type that the table gives to an emoji.
pub fn emoji_commit_type(emoji: &str) -> (r: Option<&'static str>)
    ensures
        match r {
            Some(t) => type_of_emoji(emoji@) == Some(t@),
            None => type_of_emoji(emoji@) is None,
        },
{
    let table = gitmojis();
    let mut i: usize = 0;
    while i < table.len()
        invariant
            i <= table.len(),
            gitmoji_views(table@) == gitmoji_table(),
            entry_of_emoji(gitmoji_table(), emoji@, 0) == entry_of_emoji(
                gitmoji_table(),
                emoji@,
                i as int,
            ),
        decreases table.len() - i,
    {
        assert(gitmoji_views(table@)[i as int] == table@[i as int]@);
        if str_eq(table[i].emoji, emoji) {
            return Some(table[i].commit_type);
        }
        i += 1;
    }
    None
}

/// Extracts gitmoji from the beginning of a string.
///
/// Supports both the emoji format and the text format (`:sparkles:`).
pub fn extract_gitmoji(s: &str) -> (r: Option<ExtractedGitmoji>)
    ensures
        match r {
            Some(found) => extracted(s@) == Some((found.emoji@, found.rest@)),
            None => extracted(s@) is None,
        },
{
    let v = chars_of(s);
    let table = gitmojis();
    // Try text code format first (:code:)
    if v.len() > 0 && v[0] == ':' {
        let mut end: usize = 1;
        while end < v.len() && v[end] != ':'
            invariant
                1 <= end <= v.len(),
                next_colon(v@, 1) == next_colon(v@, end as int),
            decreases v.len() - end,
        {
            end += 1;
        }
        if end < v.len() {
            let code = substring(&v, 0, end + 1);
            assert(code@ == v@.take(end + 1));
            match find_code(&table, code.as_str()) {
                Some(i) => {
                    assert(gitmoji_views(table@)[i as int] == table@[i as int]@);
                    let from = skip_spaces(&v, end + 1);
                    return Some(
                        ExtractedGitmoji {
                            emoji: String::from_str(table[i].emoji),
                            rest: substring(&v, from, v.len()),
                        },
                    );
                },
                None => {},
            }
        }
    }
    // Try known emojis
    match find_prefix(&table, &v) {
        Some(i) => {
            assert(gitmoji_views(table@)[i as int] == table@[i as int]@);
            let emoji = chars_of(table[i].emoji);
            let from = skip_spaces(&v, emoji.len());
            return Some(
                ExtractedGitmoji {
                    emoji: String::from_str(table[i].emoji),
                    rest: substring(&v, from, v.len()),
                },
            );
        },
        None => {},
    }
    // Try to extract any emoji-like character (for unknown emojis)
    if v.len() > 0 && is_emoji_char(v[0]) {
        // Handle variation selectors and zero-width joiners
        let mut len: usize = 1;
        while len < v.len() && is_emoji_modifier(v[len])
            invariant
                1 <= len <= v.len(),
                after_modifiers(v@, 1) == after_modifiers(v@, len as int),
            decreases v.len() - len,
        {
            len += 1;
        }
        let from = skip_spaces(&v, len);
        return Some(
            ExtractedGitmoji { emoji: substring(&v, 0, len), rest: substring(&v, from, v.len()) },
        );
    }
    None
}

/// Configuration for the Gitmoji parser.
#[derive(Debug, Clone, Copy, PartialEq, Eq)]
pub struct GitmojiParserConfig {
    /// Infer type from emoji if not explicitly provided.
    pub infer_type_from_emoji: bool,
    /// Reject commits with unknown emojis.
    pub strict_emoji: bool,
}

impl Default for GitmojiParserConfig {
    fn default() -> (r: GitmojiParserConfig)
        ensures
            r.infer_type_from_emoji,
            !r.strict_emoji,
    {
        GitmojiParserConfig { infer_type_from_emoji: true, strict_emoji: false }
    }
}

/// Conventional Commits + Gitmoji parser.
///
/// Supports both the emoji format and the text format (`:sparkles:`).
pub struct ConventionalGitmojiParser {
    conventional: ConventionalParser,
    config: GitmojiParserConfig,
}

/// A commit with another message.
pub open spec fn with_message(raw: RawCommitView, message: Seq<char>) -> RawCommitView {
    RawCommitView { message, ..raw }
}

/// The classification of a commit whose subject may begin with a gitmoji,
/// given the gitmoji found at its beginning (emoji and rest), what the rest
/// reads as, and what the whole commit reads as.
///
/// Where a gitmoji was found, an unknown emoji is refused in strict mode.
/// Otherwise the reading of the rest counts, with the emoji added to it.
/// Where the rest could not be read, a known emoji gives the type, if the
/// configuration lets it, and the rest is the message. In every other case
/// the reading of the whole commit counts.
pub open spec fn gitmoji_choice(
    config: GitmojiParserConfig,
    raw: RawCommitView,
    found: Option<(Seq<char>, Seq<char>)>,
    of_rest: Option<ParsedCommitView>,
    of_whole: Option<ParsedCommitView>,
) -> Option<ParsedCommitView> {
    match found {
        Some(found) => {
            let emoji = found.0;
            let rest = found.1;
            let known = type_of_emoji(emoji);
            if config.strict_emoji && known is None {
                None
            } else {
                match of_rest {
                    Some(parsed) => Some(ParsedCommitView { emoji: Some(emoji), ..parsed }),
                    None => if config.infer_type_from_emoji && known is Some {
                        Some(
                            ParsedCommitView {
                                hash: raw.hash,
                                commit_type: known->0,
                                scope: None,
                                message: rest,
                                breaking: false,
                                emoji: Some(emoji),
                                metadata: Seq::empty(),
                                author: raw.author,
                                date: raw.date,
                            },
                        )
                    } else {
                        of_whole
                    },
                }
            }
        },
        None => of_whole,
    }
}

/// The classification of a commit whose subject may begin with a gitmoji:
/// the choice among the gitmoji at the beginning of the subject, the rest of
/// the subject read as a conventional commit, and the whole commit read as
/// one.
pub open spec fn gitmoji_commit(
    conventional: ConventionalParser,
    config: GitmojiParserConfig,
    raw: RawCommitView,
) -> Option<ParsedCommitView> {
    let found = extracted(first_line(raw.message));
    gitmoji_choice(
        config,
        raw,
        found,
        match found {
            Some(found) => conventional.classification(with_message(raw, found.1)),
            None => None,
        },
        conventional.classification(raw),
    )
}

/// The view of a gitmoji that may have been found.
pub open spec fn opt_extracted(found: Option<ExtractedGitmoji>) -> Option<(Seq<char>, Seq<char>)> {
    match found {
        Some(found) => Some((found.emoji@, found.rest@)),
        None => None,
    }
}

/// Classifies a commit from the gitmoji found at the beginning of its
/// subject, what the rest of the subject reads as, and what the whole commit
/// reads as.
pub fn choose_classification(
    config: GitmojiParserConfig,
    raw: &RawCommit,
    found: Option<ExtractedGitmoji>,
    of_rest: Option<ParsedCommit>,
    of_whole: Option<ParsedCommit>,
) -> (r: Option<ParsedCommit>)
    ensures
        opt_commit(r) == gitmoji_choice(
            config,
            raw@,
            opt_extracted(found),
            opt_commit(of_rest),
            opt_commit(of_whole),
        ),
{
    match found {
        Some(found) => {
            // Check if emoji is known (if strict mode)
            let known = emoji_commit_type(found.emoji.as_str());
            if config.strict_emoji && known.is_none() {
                return None;
            }
            match of_rest {
                Some(parsed) => {
                    let mut parsed = parsed;
                    parsed.emoji = Some(found.emoji);
                    Some(parsed)
                },
                None => match known {
                    Some(commit_type) if config.infer_type_from_emoji => {
                        let parsed = ParsedCommit {
                            hash: raw.hash.clone(),
                            commit_type: String::from_str(commit_type),
                            scope: None,
                            message: found.rest,
                            breaking: false,
                            emoji: Some(found.emoji),
                            metadata: Vec::new(),
                            author: raw.author.clone(),
                            date: raw.date,
                        };
                        assert(parsed@.metadata == Seq::<(Seq<char>, Seq<char>)>::empty());
                        Some(parsed)
                    },
                    _ => of_whole,
                },
            }
        },
        None => of_whole,
    }
}

impl ConventionalGitmojiParser {
    /// The configuration of the parser.
    pub closed spec fn settings(&self) -> GitmojiParserConfig {
        self.config
    }

    /// The parser for what follows the gitmoji.
    pub closed spec fn inner(&self) -> ConventionalParser {
        self.conventional
    }

    /// Creates a new parser with the default configuration.
    pub fn new() -> (r: ConventionalGitmojiParser)
        ensures
            r.settings().infer_type_from_emoji,
            !r.settings().strict_emoji,
    {
        ConventionalGitmojiParser {
            conventional: ConventionalParser::new(),
            config: GitmojiParserConfig { infer_type_from_emoji: true, strict_emoji: false },
        }
    }

    /// Creates a new parser with custom configuration.
    pub fn with_config(config: GitmojiParserConfig) -> (r: ConventionalGitmojiParser)
        ensures
            r.settings() == config,
    {
        ConventionalGitmojiParser { conventional: ConventionalParser::new(), config }
    }
}

impl Default for ConventionalGitmojiParser {
    fn default() -> (r: ConventionalGitmojiParser)
        ensures
            r.settings().infer_type_from_emoji,
            !r.settings().strict_emoji,
    {
        ConventionalGitmojiParser::new()
    }
}

impl Plugin for ConventionalGitmojiParser {
    fn name(&self) -> (r: &'static str)
        ensures
            r@ == "gitmoji"@,
    {
        "gitmoji"
    }

    fn version(&self) -> (r: &'static str)
        ensures
            r@ == PACKAGE_VERSION@,
    {
        PACKAGE_VERSION
    }

    fn description(&self) -> (r: &'static str)
        ensures
            r@ == "Parses Conventional Commits with Gitmoji prefix (emoji or :code: format)"@,
    {
        "Parses Conventional Commits with Gitmoji prefix (emoji or :code: format)"
    }
}

impl CommitParser for ConventionalGitmojiParser {
    open spec fn classification(&self, raw: RawCommitView) -> Option<ParsedCommitView> {
        gitmoji_commit(self.inner(), self.settings(), raw)
    }

    fn parse(&self, raw: &RawCommit) -> (r: Option<ParsedCommit>) {
        let subject = raw.subject();
        let found = extract_gitmoji(subject.as_str());
        // The rest of the subject, without the gitmoji, as a conventional commit
        let of_rest = match &found {
            Some(found) => {
                let modified = RawCommit::new(
                    raw.hash.as_str(),
                    found.rest.as_str(),
                    raw.author.as_str(),
                    raw.email.as_str(),
                    raw.date,
                );
                assert(modified@ == with_message(raw@, found.rest@));
                self.conventional.parse(&modified)
            },
            None => None,
        };
        let of_whole = self.conventional.parse(raw);
        choose_classification(self.config, raw, found, of_rest, of_whole)
    }
}

} // verus!
