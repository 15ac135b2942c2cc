//! Paths as text: splitting into components, joining, normalising without
//! touching the filesystem, and the containment rule for file writes.
//!
//! Components are separated by `/`; empty components (repeated or trailing
//! separators) do not count.

use crate::text::{chars_of, str_eq, substring};
use vstd::prelude::*;

verus! {

/// One component of a path.
#[derive(Debug, Clone, PartialEq, Eq)]
pub enum Segment {
    /// The root directory, from a leading `/`.
    Root,
    /// The component `.`.
    Current,
    /// The component `..`.
    Parent,
    /// Any other component.
    Name(String),
}

/// The mathematical content of a [`Segment`].
pub enum SegmentView {
    Root,
    Current,
    Parent,
    Name(Seq<char>),
}

impl View for Segment {
    type V = SegmentView;

    open spec fn view(&self) -> SegmentView {
        match self {
            Segment::Root => SegmentView::Root,
            Segment::Current => SegmentView::Current,
            Segment::Parent => SegmentView::Parent,
            Segment::Name(n) => SegmentView::Name(n@),
        }
    }
}

/// The views of a list of segments.
pub open spec fn segment_views(list: Seq<Segment>) -> Seq<SegmentView> {
    list.map_values(|s: Segment| s@)
}

/// The number of characters of `s` before its first `/`; its length where
/// it has none.
pub open spec fn run_length(s: Seq<char>) -> int
    decreases s.len(),
{
    if s.len() == 0 || s[0] == '/' {
        0
    } else {
        1 + run_length(s.skip(1))
    }
}

/// The non-empty pieces between the separators of `s`, in order.
pub open spec fn pieces(s: Seq<char>) -> Seq<Seq<char>>
    decreases s.len(),
{
    if s.len() == 0 {
        Seq::empty()
    } else if s[0] == '/' {
        pieces(s.skip(1))
    } else {
        let n = run_length(s);
        if 0 < n <= s.len() {
            seq![s.take(n)] + pieces(s.skip(n))
        } else {
            Seq::empty()
        }
    }
}

/// The component that a piece of a path stands for.
pub open spec fn classify(piece: Seq<char>) -> SegmentView {
    if piece == seq!['.'] {
        SegmentView::Current
    } else if piece == seq!['.', '.'] {
        SegmentView::Parent
    } else {
        SegmentView::Name(piece)
    }
}

/// Whether a path starts at the root.
pub open spec fn is_absolute(path: Seq<char>) -> bool {
    path.len() > 0 && path[0] == '/'
}

/// The components of a path: the root where the path is absolute, then one
/// component for each piece.
pub open spec fn segments(path: Seq<char>) -> Seq<SegmentView> {
    (if is_absolute(path) {
        seq![SegmentView::Root]
    } else {
        Seq::empty()
    }) + pieces(path).map_values(|p: Seq<char>| classify(p))
}

/// One step of normalisation: `.` is dropped, `..` removes the last
/// component gathered so far (if any), anything else is appended.
pub open spec fn absorb(gathered: Seq<SegmentView>, next: SegmentView) -> Seq<SegmentView> {
    match next {
        SegmentView::Current => gathered,
        SegmentView::Parent => if gathered.len() > 0 {
            gathered.drop_last()
        } else {
            gathered
        },
        _ => gathered.push(next),
    }
}

/// The components left after walking `list` from the front with [`absorb`].
pub open spec fn normalized(list: Seq<SegmentView>) -> Seq<SegmentView>
    decreases list.len(),
{
    if list.len() == 0 {
        Seq::empty()
    } else {
        absorb(normalized(list.drop_last()), list.last())
    }
}

/// The path that `path` names when it is used from the directory `base`: an
/// absolute path stands as it is, a relative one is appended to the base,
/// with a separator between them unless the base is empty or ends in one.
pub open spec fn joined(base: Seq<char>, path: Seq<char>) -> Seq<char> {
    if is_absolute(path) {
        path
    } else if base.len() == 0 || base.last() == '/' {
        base + path
    } else {
        base + seq!['/'] + path
    }
}

/// A write to `path`, resolved from `root`, stays inside `root`: after
/// normalisation the components of the root are a prefix of the components
/// of the target.
pub open spec fn stays_inside(root: Seq<char>, path: Seq<char>) -> bool {
    normalized(segments(root)).is_prefix_of(normalized(segments(joined(root, path))))
}

/// A component is plain: it is neither `.` nor `..`.
pub open spec fn is_plain(s: SegmentView) -> bool {
    !(s is Current) && !(s is Parent)
}

/// Normalisation leaves plain components only.
pub proof fn lemma_normalized_is_plain(list: Seq<SegmentView>)
    ensures
        forall|i: int| 0 <= i < normalized(list).len() ==> is_plain(#[trigger] normalized(list)[i]),
    decreases list.len(),
{
    if list.len() > 0 {
        let gathered = normalized(list.drop_last());
        lemma_normalized_is_plain(list.drop_last());
        let after = normalized(list);
        assert forall|i: int| 0 <= i < after.len() implies is_plain(#[trigger] after[i]) by {
            if i < gathered.len() {
                assert(after[i] == gathered[i]);
            }
        }
    }
}

/// A list of plain components is its own normal form.
pub proof fn lemma_plain_is_normal(list: Seq<SegmentView>)
    requires
        forall|i: int| 0 <= i < list.len() ==> is_plain(#[trigger] list[i]),
    ensures
        normalized(list) == list,
    decreases list.len(),
{
    if list.len() > 0 {
        let front = list.drop_last();
        assert forall|i: int| 0 <= i < front.len() implies is_plain(#[trigger] front[i]) by {
            assert(front[i] == list[i]);
        }
        lemma_plain_is_normal(front);
        assert(is_plain(list[list.len() - 1]));
        assert(front.push(list.last()) == list);
    }
}

/// Normalising twice gives what normalising once gives.
pub proof fn lemma_normalized_is_idempotent(list: Seq<SegmentView>)
    ensures
        normalized(normalized(list)) == normalized(list),
{
    lemma_normalized_is_plain(list);
    lemma_plain_is_normal(normalized(list));
}

/// A text of separators alone has no pieces.
pub proof fn lemma_no_pieces(s: Seq<char>)
    requires
        forall|j: int| 0 <= j < s.len() ==> s[j] == '/',
    ensures
        pieces(s).len() == 0,
    decreases s.len(),
{
    if s.len() > 0 {
        assert(s[0] == '/');
        assert forall|j: int| 0 <= j < s.skip(1).len() implies s.skip(1)[j] == '/' by {
            assert(s.skip(1)[j] == s[j + 1]);
        }
        lemma_no_pieces(s.skip(1));
    }
}

/// The run before the first separator lies inside the text, and is not empty
/// where the text begins with something else.
pub proof fn lemma_run_length_bounds(s: Seq<char>)
    ensures
        0 <= run_length(s) <= s.len(),
        s.len() > 0 && s[0] != '/' ==> run_length(s) > 0,
        forall|j: int| 0 <= j < run_length(s) ==> s[j] != '/',
        run_length(s) < s.len() ==> s[run_length(s)] == '/',
    decreases s.len(),
{
    if s.len() > 0 && s[0] != '/' {
        lemma_run_length_bounds(s.skip(1));
        assert forall|j: int| 0 <= j < run_length(s) implies s[j] != '/' by {
            if j > 0 {
                assert(s.skip(1)[j - 1] == s[j]);
            }
        }
    }
}

/// The run before the first separator ends at `k`.
pub proof fn lemma_run_length_is(s: Seq<char>, k: int)
    requires
        0 <= k <= s.len(),
        forall|j: int| 0 <= j < k ==> s[j] != '/',
        k == s.len() || s[k] == '/',
    ensures
        run_length(s) == k,
{
    lemma_run_length(s, k);
}

/// How `pieces` proceeds on a text that is not empty.
pub proof fn lemma_pieces_unfold(s: Seq<char>)
    requires
        s.len() > 0,
    ensures
        s[0] == '/' ==> pieces(s) == pieces(s.skip(1)),
        s[0] != '/' ==> pieces(s) == seq![s.take(run_length(s))] + pieces(s.skip(run_length(s))),
{
    lemma_run_length_bounds(s);
}

/// The run before the first separator ends at `k`, by induction on `k`.
proof fn lemma_run_length(s: Seq<char>, k: int)
    requires
        0 <= k <= s.len(),
        forall|j: int| 0 <= j < k ==> s[j] != '/',
        k == s.len() || s[k] == '/',
    ensures
        run_length(s) == k,
    decreases k,
{
    if k > 0 {
        lemma_run_length(s.skip(1), k - 1);
    }
}

/// The components of a path.
pub fn split_path(path: &str) -> (r: Vec<Segment>)
    ensures
        segment_views(r@) == segments(path@),
{
    let v = chars_of(path);
    let mut out: Vec<Segment> = Vec::new();
    if v.len() > 0 && v[0] == '/' {
        out.push(Segment::Root);
    }
    let ghost head = segment_views(out@);
    let mut i: usize = 0;
    assert(v@.skip(0) == v@);
    while i < v.len()
        invariant
            i <= v.len(),
            v@ == path@,
            head == (if is_absolute(path@) {
                seq![SegmentView::Root]
            } else {
                Seq::empty()
            }),
            segment_views(out@) + pieces(v@.skip(i as int)).map_values(|p: Seq<char>| classify(p))
                == head + pieces(v@).map_values(|p: Seq<char>| classify(p)),
        decreases v.len() - i,
    {
        let ghost rest = v@.skip(i as int);
        if v[i] == '/' {
            assert(rest.skip(1) == v@.skip(i + 1));
            i += 1;
        } else {
            let mut end: usize = i;
            while end < v.len() && v[end] != '/'
                invariant
                    i <= end <= v.len(),
                    forall|j: int| i <= j < end ==> v@[j] != '/',
                decreases v.len() - end,
            {
                end += 1;
            }
            let piece = substring(&v, i, end);
            proof {
                lemma_run_length(rest, end - i);
                assert(rest.take(end - i) == v@.subrange(i as int, end as int));
                assert(rest.skip(end - i) == v@.skip(end as int));
                let tail = pieces(v@.skip(end as int));
                assert(pieces(rest) == seq![piece@] + tail);
                assert(pieces(rest).map_values(|p: Seq<char>| classify(p)) == seq![
                    classify(piece@),
                ] + tail.map_values(|p: Seq<char>| classify(p)));
            }
            let ghost before = segment_views(out@);
            let segment = if str_eq(piece.as_str(), ".") {
                Segment::Current
            } else if str_eq(piece.as_str(), "..") {
                Segment::Parent
            } else {
                Segment::Name(piece)
            };
            proof {
                reveal_strlit(".");
                reveal_strlit("..");
                assert("."@ == seq!['.']);
                assert(".."@ == seq!['.', '.']);
                assert(segment@ == classify(piece@));
            }
            out.push(segment);
            assert(segment_views(out@) == before.push(classify(piece@)));
            assert(before.push(classify(piece@)) + pieces(v@.skip(end as int)).map_values(
                |p: Seq<char>| classify(p),
            ) == before + (seq![classify(piece@)] + pieces(v@.skip(end as int)).map_values(
                |p: Seq<char>| classify(p),
            )));
            i = end;
        }
    }
    proof {
        assert(v@.skip(v@.len() as int) == Seq::<char>::empty());
        assert(pieces(v@.skip(i as int)).map_values(|p: Seq<char>| classify(p)) == Seq::<
            SegmentView,
        >::empty());
        assert(segment_views(out@) + Seq::<SegmentView>::empty() == segment_views(out@));
    }
    out
}

/// A copy of a segment.
fn copy_segment(s: &Segment) -> (r: Segment)
    ensures
        r@ == s@,
{
    match s {
        Segment::Root => Segment::Root,
        Segment::Current => Segment::Current,
        Segment::Parent => Segment::Parent,
        Segment::Name(n) => Segment::Name(n.clone()),
    }
}

/// Resolves `.` and `..` in a list of components, without asking the
/// filesystem.
pub fn normalize_segments(list: &Vec<Segment>) -> (r: Vec<Segment>)
    ensures
        segment_views(r@) == normalized(segment_views(list@)),
{
    let mut out: Vec<Segment> = Vec::new();
    let mut i: usize = 0;
    while i < list.len()
        invariant
            i <= list.len(),
            segment_views(out@) == normalized(segment_views(list@).take(i as int)),
        decreases list.len() - i,
    {
        let ghost before = segment_views(out@);
        let ghost upto = segment_views(list@).take(i + 1);
        assert(upto.drop_last() == segment_views(list@).take(i as int));
        assert(upto.last() == list@[i as int]@);
        match &list[i] {
            Segment::Parent => {
                if out.len() > 0 {
                    out.pop();
                    assert(segment_views(out@) == before.drop_last());
                }
            },
            Segment::Current => {},
            other => {
                out.push(copy_segment(other));
                assert(segment_views(out@) == before.push(other@));
            },
        }
        i += 1;
    }
    assert(segment_views(list@).take(list@.len() as int) == segment_views(list@));
    out
}

/// The components of a path after normalisation.
pub fn normalized_segments(path: &str) -> (r: Vec<Segment>)
    ensures
        segment_views(r@) == normalized(segments(path@)),
{
    let parts = split_path(path);
    normalize_segments(&parts)
}

/// The text of one component.
pub open spec fn segment_text(s: SegmentView) -> Seq<char> {
    match s {
        SegmentView::Root => seq!['/'],
        SegmentView::Current => seq!['.'],
        SegmentView::Parent => seq!['.', '.'],
        SegmentView::Name(n) => n,
    }
}

/// The path made of the components of `list`, each joined to those before.
pub open spec fn rendered(list: Seq<SegmentView>) -> Seq<char>
    decreases list.len(),
{
    if list.len() == 0 {
        Seq::empty()
    } else {
        joined(rendered(list.drop_last()), segment_text(list.last()))
    }
}

/// The path made of a list of components.
pub fn render_segments(list: &Vec<Segment>) -> (r: String)
    ensures
        r@ == rendered(segment_views(list@)),
{
    let mut out = String::new();
    let mut i: usize = 0;
    while i < list.len()
        invariant
            i <= list.len(),
            out@ == rendered(segment_views(list@).take(i as int)),
        decreases list.len() - i,
    {
        let ghost upto = segment_views(list@).take(i + 1);
        assert(upto.drop_last() == segment_views(list@).take(i as int));
        assert(upto.last() == list@[i as int]@);
        proof {
            reveal_strlit("/");
            reveal_strlit(".");
            reveal_strlit("..");
            assert("/"@ == seq!['/']);
            assert("."@ == seq!['.']);
            assert(".."@ == seq!['.', '.']);
        }
        out = match &list[i] {
            Segment::Root => join_path(out.as_str(), "/"),
            Segment::Current => join_path(out.as_str(), "."),
            Segment::Parent => join_path(out.as_str(), ".."),
            Segment::Name(n) => join_path(out.as_str(), n.as_str()),
        };
        i += 1;
    }
    assert(segment_views(list@).take(list@.len() as int) == segment_views(list@));
    out
}

/// Normalizes a path by resolving `.` and `..` components without requiring
/// the path to exist.
pub fn normalize_path(path: &str) -> (r: String)
    ensures
        r@ == rendered(normalized(segments(path@))),
{
    let parts = normalized_segments(path);
    render_segments(&parts)
}

/// Whether two segments are the same.
fn same_segment(a: &Segment, b: &Segment) -> (r: bool)
    ensures
        r == (a@ == b@),
{
    match (a, b) {
        (Segment::Root, Segment::Root) => true,
        (Segment::Current, Segment::Current) => true,
        (Segment::Parent, Segment::Parent) => true,
        (Segment::Name(x), Segment::Name(y)) => str_eq(x.as_str(), y.as_str()),
        _ => false,
    }
}

/// Whether the components of `prefix` are the first components of `whole`.
pub fn segments_start_with(whole: &Vec<Segment>, prefix: &Vec<Segment>) -> (r: bool)
    ensures
        r == segment_views(prefix@).is_prefix_of(segment_views(whole@)),
{
    if prefix.len() > whole.len() {
        return false;
    }
    let mut i: usize = 0;
    while i < prefix.len()
        invariant
            i <= prefix.len() <= whole.len(),
            forall|j: int| 0 <= j < i ==> segment_views(prefix@)[j] == segment_views(whole@)[j],
        decreases prefix.len() - i,
    {
        if !same_segment(&whole[i], &prefix[i]) {
            assert(segment_views(prefix@)[i as int] != segment_views(whole@)[i as int]);
            return false;
        }
        i += 1;
    }
    assert(segment_views(prefix@) == segment_views(whole@).subrange(
        0,
        segment_views(prefix@).len() as int,
    ));
    true
}

/// The path that `path` names from the directory `base`.
pub fn join_path(base: &str, path: &str) -> (r: String)
    ensures
        r@ == joined(base@, path@),
{
    let p = chars_of(path);
    if p.len() > 0 && p[0] == '/' {
        return String::from_str(path);
    }
    let b = chars_of(base);
    let mut out = String::from_str(base);
    if b.len() > 0 && b[b.len() - 1] != '/' {
        out.append("/");
        proof {
            reveal_strlit("/");
            assert("/"@ == seq!['/']);
        }
    }
    out.append(path);
    out
}

/// Whether a write to `path`, resolved from `root`, stays inside `root`.
pub fn is_inside(root: &str, path: &str) -> (r: bool)
    ensures
        r == stays_inside(root@, path@),
{
    let target = join_path(root, path);
    let target_parts = normalized_segments(target.as_str());
    let root_parts = normalized_segments(root);
    segments_start_with(&target_parts, &root_parts)
}

/// The run before the first separator does not change when text is added
/// after a separator.
proof fn lemma_run_length_of_longer(a: Seq<char>, b: Seq<char>)
    requires
        run_length(a) < a.len() || (b.len() > 0 && b[0] == '/'),
    ensures
        run_length(a + b) == run_length(a),
{
    lemma_run_length_bounds(a);
    let n = run_length(a);
    assert forall|j: int| 0 <= j < n implies (a + b)[j] != '/' by {
        assert((a + b)[j] == a[j]);
    }
    if n < a.len() {
        assert((a + b)[n] == a[n]);
    } else {
        assert((a + b)[n] == b[0]);
    }
    lemma_run_length(a + b, n);
}

/// The pieces of two texts put together are the pieces of the one and then
/// those of the other, where a separator stands between the two.
pub proof fn lemma_pieces_of_joined(a: Seq<char>, b: Seq<char>)
    requires
        a.len() == 0 || a.last() == '/' || (b.len() > 0 && b[0] == '/'),
    ensures
        pieces(a + b) == pieces(a) + pieces(b),
    decreases a.len(),
{
    if a.len() == 0 {
        assert(a + b == b);
        assert(pieces(a) + pieces(b) == pieces(b));
    } else {
        lemma_pieces_unfold(a);
        lemma_pieces_unfold(a + b);
        assert((a + b)[0] == a[0]);
        if a[0] == '/' {
            assert((a + b).skip(1) == a.skip(1) + b);
            if a.skip(1).len() > 0 {
                assert(a.skip(1).last() == a.last());
            }
            lemma_pieces_of_joined(a.skip(1), b);
        } else {
            let n = run_length(a);
            lemma_run_length_bounds(a);
            if n < a.len() {
                lemma_run_length_of_longer(a, b);
                assert((a + b).take(n) == a.take(n));
                assert((a + b).skip(n) == a.skip(n) + b);
                assert(a.skip(n).last() == a.last());
                lemma_pieces_of_joined(a.skip(n), b);
                assert(seq![a.take(n)] + (pieces(a.skip(n)) + pieces(b)) == (seq![a.take(n)]
                    + pieces(a.skip(n))) + pieces(b));
            } else {
                assert(a.last() != '/') by {
                    assert(a[a.len() - 1] != '/');
                }
                lemma_run_length_of_longer(a, b);
                assert((a + b).take(n) == a);
                assert(a.take(n) == a);
                assert((a + b).skip(n) == b);
                assert(a.skip(n) == Seq::<char>::empty());
                assert(pieces(a.skip(n)) == Seq::<Seq<char>>::empty());
            }
        }
    }
}

/// Components that are added at the end only add to the normal form, as long
/// as none of them is `..`.
proof fn lemma_normalized_grows(gathered: Seq<SegmentView>, added: Seq<SegmentView>)
    requires
        forall|i: int| 0 <= i < added.len() ==> !(#[trigger] added[i] is Parent),
    ensures
        normalized(gathered).is_prefix_of(normalized(gathered + added)),
    decreases added.len(),
{
    if added.len() == 0 {
        assert(gathered + added == gathered);
    } else {
        let front = added.drop_last();
        assert forall|i: int| 0 <= i < front.len() implies !(#[trigger] front[i] is Parent) by {
            assert(front[i] == added[i]);
        }
        lemma_normalized_grows(gathered, front);
        assert((gathered + added).drop_last() == gathered + front);
        assert((gathered + added).last() == added[added.len() - 1]);
        assert(!(added[added.len() - 1] is Parent));
    }
}

/// A relative path that holds no `..` stays inside the root, whatever the
/// root is: a write to it is never refused.
pub proof fn lemma_path_without_parent_stays_inside(root: Seq<char>, path: Seq<char>)
    requires
        !is_absolute(path),
        forall|i: int| 0 <= i < pieces(path).len() ==> #[trigger] pieces(path)[i] != seq!['.', '.'],
    ensures
        stays_inside(root, path),
{
    let classified = pieces(path).map_values(|p: Seq<char>| classify(p));
    let target = joined(root, path);
    // The pieces of the target are those of the root, then those of the path.
    if root.len() == 0 || root.last() == '/' {
        lemma_pieces_of_joined(root, path);
    } else {
        lemma_pieces_of_joined(root, seq!['/'] + path);
        assert(root + (seq!['/'] + path) == root + seq!['/'] + path);
        lemma_pieces_unfold(seq!['/'] + path);
        assert((seq!['/'] + path).skip(1) == path);
    }
    assert(pieces(target) == pieces(root) + pieces(path));
    assert(is_absolute(target) == is_absolute(root)) by {
        if root.len() > 0 {
            assert(target[0] == root[0]);
        } else {
            assert(target == path);
        }
    }
    assert(pieces(target).map_values(|p: Seq<char>| classify(p)) == pieces(root).map_values(
        |p: Seq<char>| classify(p),
    ) + classified);
    assert(segments(target) == segments(root) + classified);
    assert forall|i: int| 0 <= i < classified.len() implies !(#[trigger] classified[i] is Parent) by {
        assert(pieces(path)[i] != seq!['.', '.']);
    }
    lemma_normalized_grows(segments(root), classified);
}

} // verus!
