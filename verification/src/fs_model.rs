//! An abstract filesystem, to state what a run does to the disk.
//!
//! A snapshot maps each existing path to what lives there.  Forward actions
//! insert fresh paths; removals delete them.  The rollback law says that
//! undoing a created prefix newest-first — exactly the removals the
//! orchestrator hands out after a failure — restores the snapshot the run
//! started from: the target is either fully built or not there at all.

use vstd::prelude::*;
use crate::engine::{spec_undo_of, SpecAction};

verus! {

/// What can live at a path.
pub enum FsNode {
    Directory,
    Regular(Seq<char>),
}

/// The snapshot after one action.
pub open spec fn apply_action(fs: Map<Seq<char>, FsNode>, a: SpecAction) -> Map<Seq<char>, FsNode> {
    match a {
        SpecAction::MakeDir { path } => fs.insert(path, FsNode::Directory),
        SpecAction::PutFile { path, content } => fs.insert(path, FsNode::Regular(content)),
        SpecAction::RemovePath { path, .. } => fs.remove(path),
    }
}

/// The snapshot after a sequence of actions, applied in order.
pub open spec fn apply_all(fs: Map<Seq<char>, FsNode>, acts: Seq<SpecAction>) -> Map<
    Seq<char>,
    FsNode,
>
    decreases acts.len(),
{
    if acts.len() == 0 {
        fs
    } else {
        apply_all(apply_action(fs, acts[0]), acts.drop_first())
    }
}

/// The removals that undo a sequence of forward actions, newest first.
pub open spec fn undo_seq(acts: Seq<SpecAction>) -> Seq<SpecAction> {
    acts.reverse().map_values(|a: SpecAction| spec_undo_of(a))
}

/// Applying a concatenation is applying the parts in turn.
proof fn lemma_apply_all_append(
    fs: Map<Seq<char>, FsNode>,
    a: Seq<SpecAction>,
    b: Seq<SpecAction>,
)
    ensures
        apply_all(fs, a + b) == apply_all(apply_all(fs, a), b),
    decreases a.len(),
{
    if a.len() == 0 {
        assert(a + b =~= b);
    } else {
        assert((a + b)[0] == a[0]);
        assert((a + b).drop_first() =~= a.drop_first() + b);
        lemma_apply_all_append(apply_action(fs, a[0]), a.drop_first(), b);
    }
}

/// Undoing a created prefix newest-first restores the original snapshot,
/// provided the actions create distinct paths that did not exist before —
/// which holds of any plan prefix on a fresh target.
pub proof fn lemma_rollback_restores(fs: Map<Seq<char>, FsNode>, acts: Seq<SpecAction>)
    requires
        forall|i: int| 0 <= i < acts.len() ==> (#[trigger] acts[i]).is_forward(),
        forall|i: int, j: int|
            0 <= i < j < acts.len() ==> acts[i].path_view() != acts[j].path_view(),
        forall|i: int| 0 <= i < acts.len() ==> !fs.dom().contains(
            (#[trigger] acts[i]).path_view(),
        ),
    ensures
        apply_all(apply_all(fs, acts), undo_seq(acts)) == fs,
    decreases acts.len(),
{
    if acts.len() == 0 {
        assert(acts.reverse() =~= Seq::<SpecAction>::empty());
        assert(undo_seq(acts) =~= Seq::<SpecAction>::empty());
    } else {
        let a0 = acts[0];
        let p0 = a0.path_view();
        let rest = acts.drop_first();
        let fs1 = apply_action(fs, a0);
        assert forall|i: int| 0 <= i < rest.len() implies !fs1.dom().contains(
            (#[trigger] rest[i]).path_view(),
        ) by {
            assert(rest[i] == acts[i + 1]);
            assert(acts[i + 1].path_view() != p0);
        }
        assert forall|i: int| 0 <= i < rest.len() implies (#[trigger] rest[i]).is_forward() by {
            assert(rest[i] == acts[i + 1]);
        }
        assert forall|i: int, j: int|
            0 <= i < j < rest.len() implies rest[i].path_view() != rest[j].path_view() by {
            assert(rest[i] == acts[i + 1]);
            assert(rest[j] == acts[j + 1]);
        }
        lemma_rollback_restores(fs1, rest);
        let u0 = spec_undo_of(a0);
        assert(acts.reverse() =~= rest.reverse().push(a0));
        assert(undo_seq(acts) =~= undo_seq(rest) + seq![u0]);
        assert(apply_all(fs, acts) == apply_all(fs1, rest));
        lemma_apply_all_append(apply_all(fs1, rest), undo_seq(rest), seq![u0]);
        assert(apply_all(apply_all(fs, acts), undo_seq(acts)) == apply_all(
            apply_all(apply_all(fs1, rest), undo_seq(rest)),
            seq![u0],
        ));
        assert(apply_all(apply_all(fs, acts), undo_seq(acts)) == apply_all(fs1, seq![u0]));
        assert(seq![u0].drop_first() =~= Seq::<SpecAction>::empty());
        assert(apply_all(apply_action(fs1, u0), Seq::<SpecAction>::empty())
            == apply_action(fs1, u0));
        assert(apply_all(fs1, seq![u0]) == apply_action(fs1, u0));
        assert(a0.is_forward());
        assert(u0.path_view() == p0);
        assert(u0 is RemovePath);
        assert(apply_action(fs1, u0) == fs1.remove(p0));
        assert(fs1.remove(p0) =~= fs);
    }
}

/// Law: a run of forward actions adds exactly the actions' paths to the
/// snapshot — no extras, no omissions.
pub proof fn lemma_run_creates_exactly(fs: Map<Seq<char>, FsNode>, acts: Seq<SpecAction>)
    requires
        forall|i: int| 0 <= i < acts.len() ==> (#[trigger] acts[i]).is_forward(),
    ensures
        apply_all(fs, acts).dom() == fs.dom().union(
            acts.map_values(|a: SpecAction| a.path_view()).to_set(),
        ),
    decreases acts.len(),
{
    let paths = acts.map_values(|a: SpecAction| a.path_view());
    if acts.len() == 0 {
        assert forall|p: Seq<char>| !paths.to_set().contains(p) by {
            assert(!paths.contains(p));
        }
        assert(apply_all(fs, acts).dom() =~= fs.dom().union(paths.to_set()));
    } else {
        let a0 = acts[0];
        let p0 = a0.path_view();
        let rest = acts.drop_first();
        let fs1 = apply_action(fs, a0);
        assert(a0.is_forward());
        assert(fs1.dom() =~= fs.dom().insert(p0));
        assert forall|i: int| 0 <= i < rest.len() implies (#[trigger] rest[i]).is_forward() by {
            assert(rest[i] == acts[i + 1]);
        }
        lemma_run_creates_exactly(fs1, rest);
        let rest_paths = rest.map_values(|a: SpecAction| a.path_view());
        assert forall|p: Seq<char>| #[trigger] paths.to_set().contains(p) <==> (p == p0
            || rest_paths.to_set().contains(p)) by {
            if paths.contains(p) {
                let i = choose|i: int| 0 <= i < paths.len() && paths[i] == p;
                if i >= 1 {
                    assert(rest_paths[i - 1] == p);
                    assert(rest_paths.contains(p));
                }
            }
            if rest_paths.contains(p) {
                let i = choose|i: int| 0 <= i < rest_paths.len() && rest_paths[i] == p;
                assert(paths[i + 1] == p);
                assert(paths.contains(p));
            }
            if p == p0 {
                assert(paths[0] == p0);
                assert(paths.contains(p));
            }
        }
        assert(apply_all(fs, acts).dom() =~= fs.dom().union(paths.to_set()));
    }
}

/// Law: aborting after any created prefix of a plan and undoing that prefix
/// newest-first leaves the snapshot exactly as it was — the project tree is
/// fully built or entirely absent — provided none of the plan's paths
/// existed beforehand.
pub proof fn lemma_abort_restores(
    fs: Map<Seq<char>, FsNode>,
    acts: Seq<SpecAction>,
    name: Seq<char>,
    k: int,
)
    requires
        crate::engine::plan_matches(acts, crate::manifest::spec_manifest(), name),
        crate::paths::valid_name(name),
        0 <= k <= acts.len(),
        forall|i: int| 0 <= i < acts.len() ==> !fs.dom().contains(
            (#[trigger] acts[i]).path_view(),
        ),
    ensures
        apply_all(apply_all(fs, acts.take(k)), undo_seq(acts.take(k))) == fs,
{
    crate::engine::lemma_plan_paths_distinct(acts, name);
    let p = acts.take(k);
    assert forall|i: int| 0 <= i < p.len() implies (#[trigger] p[i]).is_forward() by {
        assert(p[i] == acts[i]);
    }
    assert forall|i: int, j: int|
        0 <= i < j < p.len() implies p[i].path_view() != p[j].path_view() by {
        assert(p[i] == acts[i]);
        assert(p[j] == acts[j]);
    }
    assert forall|i: int| 0 <= i < p.len() implies !fs.dom().contains(
        (#[trigger] p[i]).path_view(),
    ) by {
        assert(p[i] == acts[i]);
    }
    lemma_rollback_restores(fs, p);
}

} // verus!
