//! Where the artifacts of a build lie: paths made of a root and of the
//! components that were pushed onto it.

use vstd::prelude::*;

verus! {

/// What an [`OutputPath`] holds.
pub struct OutputPathView {
    pub root: Seq<char>,
    pub components: Seq<Seq<char>>,
}

/// A path below a root directory. The root is kept as it was given; each
/// component names one directory, or at the end one file, below it.
#[derive(Debug)]
pub struct OutputPath {
    pub root: String,
    pub components: Vec<String>,
}

impl View for OutputPath {
    type V = OutputPathView;

    open spec fn view(&self) -> OutputPathView {
        OutputPathView {
            root: self.root@,
            components: Seq::new(self.components@.len(), |i: int| self.components@[i]@),
        }
    }
}

impl Clone for OutputPath {
    fn clone(&self) -> (path: OutputPath)
        ensures
            path@ == self@,
    {
        let mut components: Vec<String> = Vec::new();
        let mut i: usize = 0;
        while i < self.components.len()
            invariant
                i <= self.components.len(),
                components@.len() == i,
                forall|j: int| 0 <= j < i ==> components@[j]@ == self.components@[j]@,
            decreases self.components.len() - i,
        {
            components.push(self.components[i].clone());
            i += 1;
        }
        let path = OutputPath { root: self.root.clone(), components };
        assert(path@.components =~= self@.components);
        path
    }
}

impl OutputPath {
    /// The path of the root directory itself.
    pub fn new(root: String) -> (path: OutputPath)
        ensures
            path@ == (OutputPathView { root: root@, components: Seq::empty() }),
    {
        let path = OutputPath { root, components: Vec::new() };
        assert(path@.components =~= Seq::<Seq<char>>::empty());
        path
    }

    /// The path of `component` below this one.
    pub fn join(self, component: String) -> (path: OutputPath)
        ensures
            path@ == (OutputPathView {
                root: self@.root,
                components: self@.components.push(component@),
            }),
    {
        let mut path = self;
        path.components.push(component);
        assert(path@.components =~= self@.components.push(component@));
        path
    }
}

} // verus!
