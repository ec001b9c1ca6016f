//! Finding the project manifest by walking up from a starting directory.

use vstd::prelude::*;
use crate::failure::{Failure, FailureView};
use crate::path::{contains, Path, PathView};

verus! {

/// The manifest that `dir` would hold.
pub open spec fn manifest_in(dir: PathView) -> PathView {
    dir.join("Cargo.toml"@)
}

/// The manifest nearest to `dir`: that of `dir` itself if it is among `present`,
/// else the one nearest to the parent of `dir`; none once the root has been tried.
pub open spec fn locate(dir: PathView, present: Seq<PathView>) -> Option<PathView>
    decreases dir.depth(),
{
    if present.contains(manifest_in(dir)) {
        Some(manifest_in(dir))
    } else if dir.depth() == 0 {
        None
    } else {
        locate(dir.ancestor(dir.depth() - 1), present)
    }
}

/// The manifests to look for from `dir`: one per level, from `dir` up to the root.
pub open spec fn candidates(dir: PathView) -> Seq<PathView> {
    Seq::new(dir.depth() + 1, |i: int| manifest_in(dir.ancestor(dir.depth() - i)))
}

/// Lists the manifest of `dir` and of every directory above it, nearest first.
pub fn manifest_candidates(dir: &Path) -> (list: Vec<Path>)
    ensures
        list.deep_view() == candidates(dir@),
{
    let mut list: Vec<Path> = Vec::new();
    let mut at = dir.clone();
    let ghost mut level: int = 0;
    assert(at@ == dir@.ancestor(dir@.depth() - level)) by {
        assert(dir@.names.take(dir@.depth() as int) =~= dir@.names);
    }
    loop
        invariant
            0 <= level <= dir@.depth(),
            at@ == dir@.ancestor(dir@.depth() - level),
            list.deep_view() == candidates(dir@).take(level),
        decreases dir@.depth() - level,
    {
        let up = at.parent();
        let ghost before = list.deep_view();
        let manifest = at.join("Cargo.toml");
        assert(manifest@ == candidates(dir@)[level]);
        list.push(manifest);
        assert(list.deep_view() =~= before.push(manifest@));
        assert(list.deep_view() =~= candidates(dir@).take(level + 1));
        match up {
            None => {
                assert(candidates(dir@).take(level + 1) =~= candidates(dir@));
                return list;
            },
            Some(higher) => {
                assert(higher@.names =~= dir@.names.take(dir@.depth() - level - 1));
                at = higher;
                proof {
                    level = level + 1;
                }
            },
        }
    }
}

/// Walks up from `dir` until a directory holds a manifest that is among `present`.
///
/// `present` lists what exists; of it only the manifests of `dir` and of the
/// directories above it matter. The walk ends at the root: when the root holds
/// no manifest either, the search fails.
pub fn get_manifest_path(dir: Path, present: &Vec<Path>) -> (found: Result<Path, Failure>)
    ensures
        match locate(dir@, present.deep_view()) {
            Some(nearest) => found matches Ok(manifest) && manifest@ == nearest,
            None => found matches Err(failure) && failure@ == FailureView::ManifestNotFound,
        },
{
    let mut at = dir;
    loop
        invariant
            locate(at@, present.deep_view()) == locate(dir@, present.deep_view()),
        decreases at@.depth(),
    {
        let up = at.parent();
        let manifest = at.join("Cargo.toml");
        if contains(present, &manifest) {
            return Ok(manifest);
        }
        match up {
            None => {
                return Err(Failure::ManifestNotFound);
            },
            Some(higher) => {
                at = higher;
            },
        }
    }
}

/// Among the directories from `dir` up to the root, the one `level` names deep
/// holds a manifest and none below it does.
pub open spec fn nearest_at(dir: PathView, present: Seq<PathView>, level: int) -> bool {
    &&& 0 <= level <= dir.depth()
    &&& present.contains(manifest_in(dir.ancestor(level)))
    &&& forall|deeper: int|
        level < deeper <= dir.depth() ==> !present.contains(
            #[trigger] manifest_in(dir.ancestor(deeper)),
        )
}

/// No directory from `dir` up to the root holds a manifest.
pub open spec fn none_above(dir: PathView, present: Seq<PathView>) -> bool {
    forall|level: int|
        0 <= level <= dir.depth() ==> !present.contains(
            #[trigger] manifest_in(dir.ancestor(level)),
        )
}

/// An ancestor of an ancestor is an ancestor.
proof fn lemma_ancestor_of_parent(dir: PathView, level: int)
    requires
        0 <= level < dir.depth(),
    ensures
        dir.ancestor(dir.depth() - 1).ancestor(level) == dir.ancestor(level),
        dir.ancestor(dir.depth() - 1).depth() == dir.depth() - 1,
{
    assert(dir.names.take(dir.depth() - 1).take(level) =~= dir.names.take(level));
}

/// The search returns the manifest of the nearest directory that holds one,
/// whatever lies further up.
pub proof fn lemma_locate_nearest(dir: PathView, present: Seq<PathView>, level: int)
    requires
        nearest_at(dir, present, level),
    ensures
        locate(dir, present) == Some(manifest_in(dir.ancestor(level))),
    decreases dir.depth(),
{
    assert(dir.ancestor(dir.depth() as int) == dir) by {
        assert(dir.names.take(dir.depth() as int) =~= dir.names);
    }
    if level < dir.depth() {
        let up = dir.ancestor(dir.depth() - 1);
        assert(!present.contains(manifest_in(dir.ancestor(dir.depth() as int))));
        assert forall|deeper: int| level < deeper <= up.depth() implies !present.contains(
            #[trigger] manifest_in(up.ancestor(deeper)),
        ) by {
            lemma_ancestor_of_parent(dir, deeper);
        }
        lemma_ancestor_of_parent(dir, level);
        lemma_locate_nearest(up, present, level);
    }
}

/// The search does not depend on how deep it starts: from any two directories
/// below `home`, with no manifest between them and `home`, it returns the
/// manifest of `home`.
pub proof fn lemma_locate_independent_of_depth(
    home: PathView,
    first: PathView,
    second: PathView,
    present: Seq<PathView>,
)
    requires
        home.depth() <= first.depth(),
        home.depth() <= second.depth(),
        first.ancestor(home.depth() as int) == home,
        second.ancestor(home.depth() as int) == home,
        nearest_at(first, present, home.depth() as int),
        nearest_at(second, present, home.depth() as int),
    ensures
        locate(first, present) == Some(manifest_in(home)),
        locate(second, present) == locate(first, present),
{
    lemma_locate_nearest(first, present, home.depth() as int);
    lemma_locate_nearest(second, present, home.depth() as int);
}

/// The search fails exactly when no directory from `dir` up to the root holds a
/// manifest; it never goes on past the root.
pub proof fn lemma_locate_fails_only_without_manifest(dir: PathView, present: Seq<PathView>)
    ensures
        locate(dir, present) is None <==> none_above(dir, present),
    decreases dir.depth(),
{
    assert(dir.ancestor(dir.depth() as int) == dir) by {
        assert(dir.names.take(dir.depth() as int) =~= dir.names);
    }
    if present.contains(manifest_in(dir)) {
        assert(present.contains(manifest_in(dir.ancestor(dir.depth() as int))));
    } else if dir.depth() == 0 {
        assert forall|level: int| 0 <= level <= dir.depth() implies !present.contains(
            #[trigger] manifest_in(dir.ancestor(level)),
        ) by {
            assert(level == dir.depth());
        }
    } else {
        let up = dir.ancestor(dir.depth() - 1);
        lemma_locate_fails_only_without_manifest(up, present);
        if none_above(up, present) {
            assert forall|level: int| 0 <= level <= dir.depth() implies !present.contains(
                #[trigger] manifest_in(dir.ancestor(level)),
            ) by {
                if level < dir.depth() {
                    lemma_ancestor_of_parent(dir, level);
                    assert(!present.contains(manifest_in(up.ancestor(level))));
                }
            }
        } else {
            let level = choose|level: int|
                0 <= level <= up.depth() && present.contains(
                    #[trigger] manifest_in(up.ancestor(level)),
                );
            lemma_ancestor_of_parent(dir, level);
            assert(present.contains(manifest_in(dir.ancestor(level))));
        }
    }
}

/// Whatever the search finds is the manifest of the directory it started in or
/// of one above it, and it is among `present`.
pub proof fn lemma_locate_finds_present(dir: PathView, present: Seq<PathView>)
    requires
        locate(dir, present) is Some,
    ensures
        exists|level: int|
            nearest_at(dir, present, level) && locate(dir, present) == Some(
                #[trigger] manifest_in(dir.ancestor(level)),
            ),
    decreases dir.depth(),
{
    assert(dir.ancestor(dir.depth() as int) == dir) by {
        assert(dir.names.take(dir.depth() as int) =~= dir.names);
    }
    if present.contains(manifest_in(dir)) {
        assert(nearest_at(dir, present, dir.depth() as int));
    } else {
        let up = dir.ancestor(dir.depth() - 1);
        lemma_locate_finds_present(up, present);
        let level = choose|level: int|
            nearest_at(up, present, level) && locate(up, present) == Some(
                #[trigger] manifest_in(up.ancestor(level)),
            );
        lemma_ancestor_of_parent(dir, level);
        assert forall|deeper: int| level < deeper <= dir.depth() implies !present.contains(
            #[trigger] manifest_in(dir.ancestor(deeper)),
        ) by {
            if deeper < dir.depth() {
                lemma_ancestor_of_parent(dir, deeper);
                assert(!present.contains(manifest_in(up.ancestor(deeper))));
            }
        }
        assert(nearest_at(dir, present, level));
    }
}

} // verus!
