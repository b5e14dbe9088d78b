//! A mathematical picture of the files under a working root, used to state
//! what the transcode pass may and may not change.

use vstd::prelude::*;

verus! {

/// The files of a working root: (directory, file name) to content.
pub type Tree = Map<(Seq<char>, Seq<char>), Seq<u8>>;

/// Whether two trees agree on `path`: it is a file in both with the same
/// bytes, or in neither.
pub open spec fn agrees_at(first: Tree, second: Tree, path: (Seq<char>, Seq<char>)) -> bool {
    first.dom().contains(path) == second.dom().contains(path) && (first.dom().contains(path)
        ==> first[path] == second[path])
}

/// Whether two trees agree everywhere but, possibly, on `path`.
pub open spec fn agree_except(first: Tree, second: Tree, path: (Seq<char>, Seq<char>)) -> bool {
    forall|other: (Seq<char>, Seq<char>)| other != path ==> #[trigger] agrees_at(first, second, other)
}

/// The tree after `from` has been renamed over `to`. Renaming a file that
/// does not exist fails and changes nothing.
pub open spec fn renamed(tree: Tree, from: (Seq<char>, Seq<char>), to: (Seq<char>, Seq<char>)) -> Tree {
    if tree.dom().contains(from) {
        tree.remove(from).insert(to, tree[from])
    } else {
        tree
    }
}

/// The tree after `path` has been deleted.
pub open spec fn removed(tree: Tree, path: (Seq<char>, Seq<char>)) -> Tree {
    tree.remove(path)
}

} // verus!
