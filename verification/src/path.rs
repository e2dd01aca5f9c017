//! Filesystem paths modeled as sequences of components.
//!
//! A path is the list of its components, root excluded: the empty path
//! stands for the starting point of an absolute path (the filesystem root,
//! or whatever directory the host resolves paths against). The host is
//! responsible for turning these component lists into real paths and back.

use vstd::prelude::*;

verus! {

/// A filesystem path: its components in order, root excluded.
pub struct FsPath {
    pub components: Vec<String>,
}

impl View for FsPath {
    type V = Seq<Seq<char>>;

    open spec fn view(&self) -> Seq<Seq<char>> {
        self.components.deep_view()
    }
}

impl DeepView for FsPath {
    type V = Seq<Seq<char>>;

    open spec fn deep_view(&self) -> Seq<Seq<char>> {
        self.view()
    }
}

impl FsPath {
    /// Wrap a ready-made component list.
    pub fn from_components(components: Vec<String>) -> (r: FsPath)
        ensures
            r@ == components.deep_view(),
    {
        FsPath { components }
    }

    /// A copy of this path with an equal view.
    pub fn duplicate(&self) -> (r: FsPath)
        ensures
            r@ == self@,
    {
        let mut components: Vec<String> = Vec::new();
        let mut i: usize = 0;
        while i < self.components.len()
            invariant
                i <= self.components.len(),
                components@.len() == i,
                forall|j: int| 0 <= j < i ==> components@[j] == self.components@[j],
            decreases self.components.len() - i,
        {
            components.push(self.components[i].clone());
            i += 1;
        }
        proof {
            assert(components@ =~= self.components@);
        }
        FsPath { components }
    }

    /// The path one component below this one, as a new path.
    pub fn child(&self, name: &str) -> (r: FsPath)
        ensures
            r@ == self@.push(name@),
    {
        let mut r = self.duplicate();
        r.components.push(name.to_string());
        proof {
            assert(r@ =~= self@.push(name@));
        }
        r
    }

    /// The containing directory: the path without its last component.
    /// The empty path has no parent.
    pub fn parent(&self) -> (r: Option<FsPath>)
        ensures
            match r {
                Some(p) => self@.len() > 0 && p@ == self@.drop_last(),
                None => self@.len() == 0,
            },
    {
        if self.components.len() == 0 {
            None
        } else {
            let mut p = self.duplicate();
            let _last = p.components.pop();
            proof {
                assert(p@ =~= self@.drop_last());
            }
            Some(p)
        }
    }
}

} // verus!
