//! The render router: which GPU draws the frames of a surface.
//!
//! A surface on the primary GPU is drawn by that GPU directly. A surface on
//! any other GPU is drawn by the primary GPU and brought over to the
//! surface's GPU in the surface's buffer format.

use vstd::prelude::*;

verus! {

/// The render nodes that can take part in rendering.
#[derive(Debug)]
pub struct GpuManager {
    nodes: Vec<u64>,
}

/// The way a frame takes from rendering to scan-out.
#[derive(Clone, Copy, Debug, PartialEq, Eq, Structural)]
pub enum RenderPath {
    /// The surface's own GPU renders.
    Direct { node: u64 },
    /// The render GPU draws and the target GPU receives the frame in the
    /// given buffer format.
    CrossGpu { render: u64, target: u64, format: u32 },
}

/// The path for a surface on the device with render node `target`, given
/// which nodes are registered: direct on the primary GPU, across GPUs
/// otherwise, and none where a node that the path needs is not registered.
pub open spec fn path_of(registered: Set<u64>, primary: u64, target: u64, format: u32) -> Option<
    RenderPath,
> {
    if primary == target {
        if registered.contains(target) {
            Some(RenderPath::Direct { node: target })
        } else {
            None
        }
    } else if registered.contains(primary) && registered.contains(target) {
        Some(RenderPath::CrossGpu { render: primary, target, format })
    } else {
        None
    }
}

impl View for GpuManager {
    type V = Set<u64>;

    closed spec fn view(&self) -> Set<u64> {
        self.nodes@.to_set()
    }
}

impl GpuManager {
    /// A router without nodes.
    pub fn new() -> (r: GpuManager)
        ensures
            r@ == Set::<u64>::empty(),
    {
        let r = GpuManager { nodes: Vec::new() };
        r
    }

    /// Tells whether a render node is registered.
    pub fn contains(&self, node: u64) -> (r: bool)
        ensures
            r == self@.contains(node),
    {
        let mut i: usize = 0;
        while i < self.nodes.len()
            invariant
                i <= self.nodes.len(),
                forall|j: int| 0 <= j < i ==> self.nodes@[j] != node,
            decreases self.nodes.len() - i,
        {
            if self.nodes[i] == node {
                return true;
            }
            i += 1;
        }
        false
    }

    /// Registers a render node. Returns whether it was new.
    pub fn add_node(&mut self, node: u64) -> (r: bool)
        ensures
            final(self)@ == old(self)@.insert(node),
            r == !old(self)@.contains(node),
    {
        if self.contains(node) {
            false
        } else {
            self.nodes.push(node);
            proof {
                old(self).nodes@.lemma_push_to_set_commute(node);
            }
            true
        }
    }

    /// Takes a render node out. Returns whether it was registered.
    pub fn remove_node(&mut self, node: u64) -> (r: bool)
        ensures
            final(self)@ == old(self)@.remove(node),
            r == old(self)@.contains(node),
    {
        let ghost before = self.nodes@;
        let mut kept: Vec<u64> = Vec::new();
        let mut found = false;
        let mut i: usize = 0;
        while i < self.nodes.len()
            invariant
                i <= self.nodes.len(),
                self.nodes@ == before,
                forall|n: u64| kept@.contains(n) <==> (before.take(i as int).contains(n) && n != node),
                found == before.take(i as int).contains(node),
            decreases self.nodes.len() - i,
        {
            let n = self.nodes[i];
            let ghost old_kept = kept@;
            if n != node {
                kept.push(n);
            } else {
                found = true;
            }
            proof {
                let shorter = before.take(i as int);
                let longer = before.take(i as int + 1);
                assert(longer =~= shorter.push(n));
                assert forall|m: u64| kept@.contains(m) <==> (longer.contains(m) && m != node) by {
                    vstd::seq_lib::lemma_seq_contains_after_push(shorter, n, m);
                    if n != node {
                        vstd::seq_lib::lemma_seq_contains_after_push(old_kept, n, m);
                    }
                }
                vstd::seq_lib::lemma_seq_contains_after_push(shorter, n, node);
            }
            i += 1;
        }
        assert(before.take(before.len() as int) =~= before);
        self.nodes = kept;
        found
    }

    /// The path on which a single registered GPU renders its own surfaces.
    pub fn single_renderer(&self, node: u64) -> (r: Option<RenderPath>)
        ensures
            r == path_of(self@, node, node, 0),
    {
        if self.contains(node) {
            Some(RenderPath::Direct { node })
        } else {
            None
        }
    }

    /// The path on which `render` draws frames that `target` scans out in
    /// the given format.
    pub fn renderer(&self, render: u64, target: u64, format: u32) -> (r: Option<RenderPath>)
        ensures
            r == if self@.contains(render) && self@.contains(target) {
                Some(RenderPath::CrossGpu { render, target, format })
            } else {
                None
            },
    {
        if self.contains(render) && self.contains(target) {
            Some(RenderPath::CrossGpu { render, target, format })
        } else {
            None
        }
    }

    /// Chooses the path for a surface on the device with render node
    /// `target`: the device's own GPU where it is the primary one, else the
    /// primary GPU across to the device's.
    pub fn route(&self, primary: u64, target: u64, format: u32) -> (r: Option<RenderPath>)
        ensures
            r == path_of(self@, primary, target, format),
    {
        if primary == target {
            self.single_renderer(target)
        } else {
            self.renderer(primary, target, format)
        }
    }
}

} // verus!
