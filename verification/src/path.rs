//! Absolute locations in a directory tree, as a root and the names below it.

use vstd::prelude::*;
use vstd::string::*;

verus! {

/// A location: an anchor (such as `/` or a drive prefix) and the names that lead
/// down from it. The anchor is carried along and never interpreted.
#[derive(Debug, PartialEq, Eq)]
pub struct Path {
    pub root: String,
    pub names: Vec<String>,
}

/// The mathematical value of a [`Path`].
pub struct PathView {
    pub root: Seq<char>,
    pub names: Seq<Seq<char>>,
}

impl PathView {
    /// The location one level below `self`, under `name`.
    pub open spec fn join(self, name: Seq<char>) -> PathView {
        PathView { root: self.root, names: self.names.push(name) }
    }

    /// How many names lie between the root and this location.
    pub open spec fn depth(self) -> nat {
        self.names.len()
    }

    /// The directory that holds `self`; the root has none.
    pub open spec fn parent(self) -> Option<PathView> {
        if self.depth() == 0 {
            None
        } else {
            Some(self.ancestor(self.depth() - 1))
        }
    }

    /// The ancestor of `self` that lies `depth` names below the root.
    pub open spec fn ancestor(self, depth: int) -> PathView {
        PathView { root: self.root, names: self.names.take(depth) }
    }
}

impl View for Path {
    type V = PathView;

    open spec fn view(&self) -> PathView {
        PathView { root: self.root@, names: self.names.deep_view() }
    }
}

impl DeepView for Path {
    type V = PathView;

    open spec fn deep_view(&self) -> PathView {
        self@
    }
}

impl Clone for Path {
    fn clone(&self) -> (copy: Path)
        ensures
            copy@ == self@,
    {
        let names = self.names.clone();
        assert(names.deep_view() =~= self.names.deep_view());
        Path { root: self.root.clone(), names }
    }
}

impl Path {
    /// The root directory under the anchor `root`.
    pub fn new(root: &str) -> (path: Path)
        ensures
            path@ == (PathView { root: root@, names: Seq::empty() }),
    {
        let path = Path { root: String::from_str(root), names: Vec::new() };
        assert(path.names.deep_view() =~= Seq::<Seq<char>>::empty());
        path
    }

    /// Descends into `name`.
    pub fn join(self, name: &str) -> (path: Path)
        ensures
            path@ == self@.join(name@),
    {
        let mut names = self.names;
        names.push(String::from_str(name));
        assert(names.deep_view() =~= self.names.deep_view().push(name@));
        Path { root: self.root, names }
    }

    /// The directory that holds `self`, or `None` at the root.
    pub fn parent(&self) -> (up: Option<Path>)
        ensures
            up.deep_view() == self@.parent(),
    {
        if self.names.len() == 0 {
            return None;
        }
        let mut names = self.names.clone();
        assert(names.deep_view() =~= self.names.deep_view());
        names.pop();
        assert(names.deep_view() =~= self.names.deep_view().take(self.names.len() - 1));
        Some(Path { root: self.root.clone(), names })
    }

    /// Whether two locations are the same.
    pub fn same(&self, other: &Path) -> (equal: bool)
        ensures
            equal == (self@ == other@),
    {
        if !(self.root == other.root) {
            return false;
        }
        if self.names.len() != other.names.len() {
            assert(self@.names.len() != other@.names.len());
            return false;
        }
        let mut i: usize = 0;
        while i < self.names.len()
            invariant
                i <= self.names.len(),
                self.names.len() == other.names.len(),
                forall|j: int| 0 <= j < i ==> self.names[j]@ == other.names[j]@,
            decreases self.names.len() - i,
        {
            if !(self.names[i] == other.names[i]) {
                assert(self.names.deep_view()[i as int] != other.names.deep_view()[i as int]);
                return false;
            }
            i += 1;
        }
        assert(self.names.deep_view() =~= other.names.deep_view());
        true
    }
}

/// Whether `path` is among `paths`.
pub fn contains(paths: &Vec<Path>, path: &Path) -> (found: bool)
    ensures
        found == paths.deep_view().contains(path@),
{
    let mut i: usize = 0;
    while i < paths.len()
        invariant
            i <= paths.len(),
            forall|j: int| 0 <= j < i ==> paths[j]@ != path@,
        decreases paths.len() - i,
    {
        if paths[i].same(path) {
            assert(paths.deep_view()[i as int] == path@);
            return true;
        }
        i += 1;
    }
    assert forall|j: int| 0 <= j < paths.deep_view().len() implies paths.deep_view()[j] != path@ by {
        assert(paths.deep_view()[j] == paths[j]@);
    }
    false
}

} // verus!
