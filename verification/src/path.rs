//! Absolute directory paths, held as the names that lead from the
//! filesystem root to the directory.

use vstd::prelude::*;

verus! {

/// An absolute path as a mathematical value: the names that lead from the
/// root to the directory, outermost first. The root is the empty sequence.
pub type PathModel = Seq<Seq<char>>;

/// The views of a sequence of names, in the same order.
pub open spec fn names_model(names: Seq<String>) -> PathModel {
    Seq::new(names.len(), |i: int| names[i]@)
}

/// The absolute path of a directory. The root has no components.
#[derive(Debug, PartialEq, Eq)]
pub struct DirectoryPath {
    /// The names on the way from the root, outermost first.
    pub components: Vec<String>,
}

impl View for DirectoryPath {
    type V = PathModel;

    open spec fn view(&self) -> PathModel {
        names_model(self.components@)
    }
}

/// The model of a path that may be absent.
pub open spec fn path_model(path: Option<DirectoryPath>) -> Option<PathModel> {
    match path {
        Some(p) => Some(p@),
        None => None,
    }
}

impl Clone for DirectoryPath {
    fn clone(&self) -> (copy: DirectoryPath)
        ensures
            copy@ == self@,
    {
        self.prefix(self.components.len())
    }
}

impl DirectoryPath {
    /// The filesystem root.
    pub fn root() -> (path: DirectoryPath)
        ensures
            path@ == PathModel::empty(),
    {
        DirectoryPath { components: Vec::new() }
    }

    /// The path that the given names lead to, starting at the root.
    pub fn from_components(components: Vec<String>) -> (path: DirectoryPath)
        ensures
            path@ == names_model(components@),
    {
        DirectoryPath { components }
    }

    /// Tells whether this is the filesystem root.
    pub fn is_root(&self) -> (b: bool)
        ensures
            b == (self@.len() == 0),
    {
        self.components.len() == 0
    }

    /// The ancestor that the first `n` names lead to.
    fn prefix(&self, n: usize) -> (path: DirectoryPath)
        requires
            n <= self@.len(),
        ensures
            path@ == self@.take(n as int),
    {
        let mut components: Vec<String> = Vec::new();
        let mut i: usize = 0;
        while i < n
            invariant
                i <= n,
                n <= self.components.len(),
                components.len() == i,
                names_model(components@) == self@.take(i as int),
            decreases n - i,
        {
            let ghost done = components@;
            components.push(self.components[i].clone());
            i += 1;
            assert forall|k: int| 0 <= k < i implies names_model(components@)[k] == self@[k] by {
                if k < i - 1 {
                    assert(names_model(done)[k] == self@.take(i - 1)[k]);
                }
            }
        }
        DirectoryPath { components }
    }

    /// The directory that holds this one, or `None` for the root.
    pub fn parent(&self) -> (parent: Option<DirectoryPath>)
        ensures
            self@.len() == 0 ==> parent is None,
            self@.len() > 0 ==> parent is Some && parent->0@ == self@.drop_last(),
    {
        let n = self.components.len();
        if n == 0 {
            None
        } else {
            Some(self.prefix(n - 1))
        }
    }

    /// The directory called `name` inside this one.
    pub fn child(&self, name: &str) -> (child: DirectoryPath)
        ensures
            child@ == self@.push(name@),
    {
        let mut child = self.clone();
        child.components.push(name.to_owned());
        child
    }
}

} // verus!
