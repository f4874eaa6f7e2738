//! Locating the directory that holds the user's data file.

use vstd::prelude::*;

verus! {

/// Whether `index` is the nearest directory that holds the marker, in a
/// chain of directories that starts at the executable's own and goes up
/// parent by parent; `has_marker[i]` says whether the `i`-th holds it.
pub open spec fn is_project_root(has_marker: Seq<bool>, index: int) -> bool {
    &&& 0 <= index < has_marker.len()
    &&& has_marker[index]
    &&& forall|nearer: int| 0 <= nearer < index ==> !has_marker[nearer]
}

/// Finds the project root among a directory and its ancestors: the nearest
/// that holds the marker directory, searched from the start upwards. `None`
/// where no directory of the chain holds it.
pub fn find_project_root(has_marker: &Vec<bool>) -> (root: Option<usize>)
    ensures
        match root {
            Some(index) => is_project_root(has_marker@, index as int),
            None => forall|any: int| 0 <= any < has_marker@.len() ==> !has_marker@[any],
        },
{
    let mut current: usize = 0;
    while current < has_marker.len()
        invariant
            current <= has_marker@.len(),
            forall|nearer: int| 0 <= nearer < current ==> !has_marker@[nearer],
        decreases has_marker@.len() - current,
    {
        if has_marker[current] {
            return Some(current);
        }
        current = current + 1;
    }
    None
}

} // verus!
