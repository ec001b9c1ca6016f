//! A model of the disk, to state what carrying out a plan does to it.

use vstd::prelude::*;
use crate::effect::EffectView;
use crate::path::PathView;

verus! {

/// The directories and the files of a disk, each file with its contents.
pub struct Disk {
    pub dirs: Set<PathView>,
    pub files: Map<PathView, Seq<char>>,
}

impl Disk {
    /// Whether anything exists at `path`.
    pub open spec fn holds(self, path: PathView) -> bool {
        self.dirs.contains(path) || self.files.contains_key(path)
    }

    /// The disk once `effect` has been carried out. What a program does to the
    /// disk is its own affair and is not modelled: running one leaves this
    /// model as it is.
    pub open spec fn after(self, effect: EffectView) -> Disk {
        match effect {
            EffectView::CreateDir(path) => Disk { dirs: self.dirs.insert(path), files: self.files },
            EffectView::WriteFile(path, content) => Disk {
                dirs: self.dirs,
                files: self.files.insert(path, content),
            },
            EffectView::Run(_) => self,
        }
    }

    /// The disk once `effects` have been carried out, first to last.
    pub open spec fn after_all(self, effects: Seq<EffectView>) -> Disk
        decreases effects.len(),
    {
        if effects.len() == 0 {
            self
        } else {
            self.after_all(effects.drop_last()).after(effects.last())
        }
    }

    /// Whether `present` tells truly which of the locations `asked` exist.
    pub open spec fn seen_as(self, present: Seq<PathView>, asked: Seq<PathView>) -> bool {
        forall|i: int|
            0 <= i < asked.len() ==> (present.contains(#[trigger] asked[i]) <==> self.holds(
                asked[i],
            ))
    }
}

/// Carrying out two plans in a row is carrying out the one after the other.
pub proof fn lemma_after_both(disk: Disk, first: Seq<EffectView>, second: Seq<EffectView>)
    ensures
        disk.after_all(first + second) == disk.after_all(first).after_all(second),
    decreases second.len(),
{
    if second.len() == 0 {
        assert(first + second =~= first);
    } else {
        assert((first + second).drop_last() =~= first + second.drop_last());
        assert((first + second).last() == second.last());
        lemma_after_both(disk, first, second.drop_last());
    }
}

/// Carrying out a plan of one effect is carrying out that effect.
pub proof fn lemma_after_one(disk: Disk, effect: EffectView)
    ensures
        disk.after_all(seq![effect]) == disk.after(effect),
{
    assert(seq![effect].drop_last() =~= Seq::<EffectView>::empty());
    assert(seq![effect].last() == effect);
    assert(disk.after_all(seq![effect].drop_last()) == disk);
}

} // verus!
