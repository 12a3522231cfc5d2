//! Output paths: project names, path segments, and joining.
//!
//! A project name must be non-empty and free of path separators.  Output
//! locations are kept as sequences of path segments below the project root;
//! `join_path` turns a root and its segments into the single `/`-joined
//! path handed to the filesystem.  A segment that is empty, contains a
//! separator, or is an upward traversal (`..`) is refused, so no resolved
//! path can escape the project root.

use vstd::prelude::*;
use vstd::string::*;

verus! {

/// Path separators that a project name and a path segment may not contain.
pub open spec fn spec_is_separator(c: char) -> bool {
    c == '/' || c == '\\'
}

/// A project name is acceptable when it is non-empty and contains no path
/// separator.
pub open spec fn valid_name(s: Seq<char>) -> bool {
    s.len() >= 1 && (forall|i: int| 0 <= i < s.len() ==> !spec_is_separator(#[trigger] s[i]))
}

/// One path component below the project root: non-empty, free of
/// separators, and not an upward traversal.
pub open spec fn segment_ok(seg: Seq<char>) -> bool {
    &&& seg.len() >= 1
    &&& forall|i: int| 0 <= i < seg.len() ==> !spec_is_separator(#[trigger] seg[i])
    &&& seg != ".."@
}

/// The relative part of a joined path: a `/` before every segment.
pub open spec fn spec_rel(segs: Seq<Seq<char>>) -> Seq<char>
    decreases segs.len(),
{
    if segs.len() == 0 {
        Seq::empty()
    } else {
        seq!['/'] + segs[0] + spec_rel(segs.drop_first())
    }
}

/// A root joined with relative segments: `root/s1/.../sn`.
pub open spec fn spec_join(root: Seq<char>, segs: Seq<Seq<char>>) -> Seq<char> {
    root + spec_rel(segs)
}

/// Appending a segment extends the relative path on the right.
pub proof fn lemma_rel_push(segs: Seq<Seq<char>>, x: Seq<char>)
    ensures
        spec_rel(segs.push(x)) == spec_rel(segs) + seq!['/'] + x,
    decreases segs.len(),
{
    if segs.len() == 0 {
        assert(segs =~= Seq::<Seq<char>>::empty());
        assert(segs.push(x).drop_first() =~= Seq::<Seq<char>>::empty());
        assert(spec_rel(Seq::<Seq<char>>::empty()) == Seq::<char>::empty());
        assert(segs.push(x)[0] == x);
        assert(spec_rel(segs.push(x))
            == seq!['/'] + x + spec_rel(segs.push(x).drop_first()));
        assert(spec_rel(segs.push(x)) =~= spec_rel(segs) + seq!['/'] + x);
    } else {
        lemma_rel_push(segs.drop_first(), x);
        assert(segs.push(x).drop_first() =~= segs.drop_first().push(x));
        assert(seq!['/'] + segs[0] + (spec_rel(segs.drop_first()) + seq!['/'] + x)
            =~= (seq!['/'] + segs[0] + spec_rel(segs.drop_first())) + seq!['/'] + x);
    }
}

/// Each segment contributes its separator and at least one character.
pub proof fn lemma_rel_len(segs: Seq<Seq<char>>)
    requires
        forall|i: int| 0 <= i < segs.len() ==> segment_ok(#[trigger] segs[i]),
    ensures
        spec_rel(segs).len() >= 2 * segs.len(),
    decreases segs.len(),
{
    if segs.len() > 0 {
        assert(segment_ok(segs[0]));
        assert forall|i: int| 0 <= i < segs.drop_first().len() implies segment_ok(
            #[trigger] segs.drop_first()[i],
        ) by {
            assert(segs.drop_first()[i] == segs[i + 1]);
        }
        lemma_rel_len(segs.drop_first());
    }
}

/// Two different segment lists join to different relative paths: a `/`
/// starts every segment and no segment contains one, so the joined string
/// decodes uniquely.
pub proof fn lemma_rel_injective(s1: Seq<Seq<char>>, s2: Seq<Seq<char>>)
    requires
        forall|i: int| 0 <= i < s1.len() ==> segment_ok(#[trigger] s1[i]),
        forall|i: int| 0 <= i < s2.len() ==> segment_ok(#[trigger] s2[i]),
        spec_rel(s1) == spec_rel(s2),
    ensures
        s1 == s2,
    decreases s1.len(),
{
    if s1.len() == 0 || s2.len() == 0 {
        if s1.len() == 0 && s2.len() != 0 {
            lemma_rel_len(s2);
            assert(false);
        }
        if s2.len() == 0 && s1.len() != 0 {
            lemma_rel_len(s1);
            assert(false);
        }
        assert(s1 =~= s2);
    } else {
        let a = s1[0];
        let b = s2[0];
        let t1 = s1.drop_first();
        let t2 = s2.drop_first();
        assert(segment_ok(a));
        assert(segment_ok(b));
        assert forall|i: int| 0 <= i < t1.len() implies segment_ok(#[trigger] t1[i]) by {
            assert(t1[i] == s1[i + 1]);
        }
        assert forall|i: int| 0 <= i < t2.len() implies segment_ok(#[trigger] t2[i]) by {
            assert(t2[i] == s2[i + 1]);
        }
        let r1 = spec_rel(s1);
        let r2 = spec_rel(s2);
        assert(r1 == seq!['/'] + a + spec_rel(t1));
        assert(r2 == seq!['/'] + b + spec_rel(t2));
        // The heads must agree: a difference would show up as a differing
        // character, or as a separator standing against a segment character.
        if a.len() == b.len() {
            assert forall|k: int| 0 <= k < a.len() implies a[k] == b[k] by {
                assert(r1[1 + k] == a[k]);
                assert(r2[1 + k] == b[k]);
            }
            assert(a =~= b);
        } else if a.len() < b.len() {
            // `a` would be a proper prefix of `b`: the path then continues
            // with a separator or ends early, and neither fits a segment.
            if t1.len() == 0 {
                assert(spec_rel(t1).len() == 0);
                assert(r1.len() == 1 + a.len());
                assert(r2.len() >= 1 + b.len());
                assert(false);
            } else {
                assert(spec_rel(t1) == seq!['/'] + t1[0] + spec_rel(t1.drop_first()));
                assert(r1[1 + a.len() as int] == '/');
                assert(r2[1 + a.len() as int] == b[a.len() as int]);
                assert(spec_is_separator(b[a.len() as int]));
                assert(false);
            }
        } else {
            if t2.len() == 0 {
                assert(spec_rel(t2).len() == 0);
                assert(r2.len() == 1 + b.len());
                assert(r1.len() >= 1 + a.len());
                assert(false);
            } else {
                assert(spec_rel(t2) == seq!['/'] + t2[0] + spec_rel(t2.drop_first()));
                assert(r2[1 + b.len() as int] == '/');
                assert(r1[1 + b.len() as int] == a[b.len() as int]);
                assert(spec_is_separator(a[b.len() as int]));
                assert(false);
            }
        }
        // With the heads equal the tails join equally, and induction closes.
        assert(spec_rel(t1) =~= r1.skip(1 + a.len() as int)) by {
            assert forall|k: int| 0 <= k < spec_rel(t1).len() implies r1[1 + a.len() + k]
                == spec_rel(t1)[k] by {}
        }
        assert(spec_rel(t2) =~= r2.skip(1 + b.len() as int)) by {
            assert forall|k: int| 0 <= k < spec_rel(t2).len() implies r2[1 + b.len() + k]
                == spec_rel(t2)[k] by {}
        }
        lemma_rel_injective(t1, t2);
        assert forall|k: int| 0 <= k < s1.len() implies s1[k] == s2[k] by {
            if k >= 1 {
                assert(t1[k - 1] == s1[k]);
                assert(t2[k - 1] == s2[k]);
            }
        }
        assert(s1 =~= s2);
    }
}

/// Joining below a common root is injective in the segments.
pub proof fn lemma_join_injective(root: Seq<char>, s1: Seq<Seq<char>>, s2: Seq<Seq<char>>)
    requires
        forall|i: int| 0 <= i < s1.len() ==> segment_ok(#[trigger] s1[i]),
        forall|i: int| 0 <= i < s2.len() ==> segment_ok(#[trigger] s2[i]),
        spec_join(root, s1) == spec_join(root, s2),
    ensures
        s1 == s2,
{
    assert(spec_rel(s1) =~= spec_join(root, s1).skip(root.len() as int));
    assert(spec_rel(s2) =~= spec_join(root, s2).skip(root.len() as int));
    lemma_rel_injective(s1, s2);
}

/// A root is strictly shorter than any path joined below it.
pub proof fn lemma_join_longer(root: Seq<char>, segs: Seq<Seq<char>>)
    requires
        segs.len() >= 1,
        forall|i: int| 0 <= i < segs.len() ==> segment_ok(#[trigger] segs[i]),
    ensures
        spec_join(root, segs).len() > root.len(),
{
    lemma_rel_len(segs);
}

/// Character-for-character equality of two string slices.
pub fn str_eq(a: &str, b: &str) -> (r: bool)
    ensures
        r == (a@ == b@),
{
    let na: usize = a.unicode_len();
    let nb: usize = b.unicode_len();
    if na != nb {
        return false;
    }
    let mut i: usize = 0;
    while i < na
        invariant
            na == a@.len(),
            na == b@.len(),
            i <= na,
            forall|k: int| 0 <= k < i ==> a@[k] == b@[k],
        decreases na - i,
    {
        if a.get_char(i) != b.get_char(i) {
            return false;
        }
        i = i + 1;
    }
    proof {
        assert(a@ =~= b@);
    }
    true
}

/// Is every character of `s` free of path separators?
fn separator_free(s: &str) -> (r: bool)
    ensures
        r == (forall|i: int| 0 <= i < s@.len() ==> !spec_is_separator(#[trigger] s@[i])),
{
    let n: usize = s.unicode_len();
    let mut i: usize = 0;
    while i < n
        invariant
            n == s@.len(),
            i <= n,
            forall|k: int| 0 <= k < i ==> !spec_is_separator(#[trigger] s@[k]),
        decreases n - i,
    {
        let c = s.get_char(i);
        if c == '/' || c == '\\' {
            assert(spec_is_separator(s@[i as int]));
            return false;
        }
        i = i + 1;
    }
    true
}

/// Decide `valid_name`.
pub fn check_name(name: &str) -> (r: bool)
    ensures
        r == valid_name(name@),
{
    name.unicode_len() >= 1 && separator_free(name)
}

/// Decide `segment_ok`.
pub fn check_segment(seg: &str) -> (r: bool)
    ensures
        r == segment_ok(seg@),
{
    seg.unicode_len() >= 1 && separator_free(seg) && !str_eq(seg, "..")
}

/// Join a root and already-substituted segments into one output path.
pub fn join_path(root: &str, segs: &Vec<String>) -> (r: String)
    ensures
        r@ == spec_join(root@, segs@.map_values(|s: String| s@)),
{
    let mut out: String = String::from_str(root);
    let ghost views = segs@.map_values(|s: String| s@);
    proof {
        assert(views.take(0) =~= Seq::<Seq<char>>::empty());
        assert(out@ =~= root@ + spec_rel(views.take(0)));
    }
    let mut i: usize = 0;
    while i < segs.len()
        invariant
            views == segs@.map_values(|s: String| s@),
            views.len() == segs@.len(),
            i <= segs@.len(),
            out@ == root@ + spec_rel(views.take(i as int)),
        decreases segs@.len() - i,
    {
        let ghost prev = out@;
        out.append("/");
        out.append(segs[i].as_str());
        proof {
            reveal_strlit("/");
            assert("/"@ =~= seq!['/']);
            lemma_rel_push(views.take(i as int), views[i as int]);
            assert(views.take(i + 1) =~= views.take(i as int).push(views[i as int]));
            assert(out@ =~= root@ + spec_rel(views.take(i + 1)));
        }
        i = i + 1;
    }
    proof {
        assert(views.take(segs@.len() as int) =~= views);
    }
    out
}

} // verus!
