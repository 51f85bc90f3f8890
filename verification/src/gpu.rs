//! Choosing the primary GPU among the GPUs of a seat.

use vstd::prelude::*;
use vstd::string::*;

verus! {

/// A GPU of the seat, as found on the system.
#[derive(Debug)]
pub struct GpuCandidate {
    /// Path of the GPU's device file.
    pub path: String,
    /// The GPU's render node, where it has one.
    pub render_node: Option<u64>,
}

/// The GPU that was chosen.
#[derive(Debug)]
pub struct GpuChoice {
    /// The GPU's render node.
    pub node: u64,
    /// Path of the GPU's device file.
    pub path: String,
}

/// Position of the first candidate at or after `from` with a render node.
pub open spec fn first_with_render_node(all: Seq<GpuCandidate>, from: int) -> Option<int>
    decreases all.len() - from,
{
    if from < 0 || from >= all.len() {
        None
    } else if all[from].render_node is Some {
        Some(from)
    } else {
        first_with_render_node(all, from + 1)
    }
}

/// The candidate that is chosen: the seat's primary GPU where it has a
/// render node, else the first GPU of the seat that has one.
pub open spec fn chosen_gpu(primary: Option<GpuCandidate>, all: Seq<GpuCandidate>) -> Option<
    GpuCandidate,
> {
    if primary is Some && primary->0.render_node is Some {
        primary
    } else {
        match first_with_render_node(all, 0) {
            Some(i) => Some(all[i]),
            None => None,
        }
    }
}

/// Chooses the primary GPU: the one the seat marks as primary where it has a
/// render node, else the first GPU of the seat that has one. There is no
/// choice where no GPU has a render node.
pub fn primary_gpu(primary: &Option<GpuCandidate>, all: &Vec<GpuCandidate>) -> (r: Option<GpuChoice>)
    ensures
        match chosen_gpu(*primary, all@) {
            Some(candidate) => r is Some && Some(r->0.node) == candidate.render_node && r->0.path
                == candidate.path,
            None => r is None,
        },
{
    if let Some(candidate) = primary {
        if let Some(node) = candidate.render_node {
            return Some(GpuChoice { node, path: candidate.path.clone() });
        }
    }
    let mut i: usize = 0;
    while i < all.len()
        invariant
            i <= all.len(),
            !(primary is Some && primary->0.render_node is Some),
            first_with_render_node(all@, 0) == first_with_render_node(all@, i as int),
        decreases all.len() - i,
    {
        if let Some(node) = all[i].render_node {
            return Some(GpuChoice { node, path: all[i].path.clone() });
        }
        i += 1;
    }
    None
}

} // verus!
