//! Tracking of popups: the popups that wait for their parent, and the trees
//! of popups that hang below toplevel surfaces.
//!
//! A popup is a handle to a surface. What is known of the surfaces at the
//! moment, whether they exist, what their parents are and where they sit, is
//! handed in with every call.

use vstd::prelude::*;
use crate::output::Rectangle;

verus! {

/// What is known of one surface at the moment.
#[derive(Clone, Copy, Debug, PartialEq, Eq, Structural)]
pub struct SurfaceInfo {
    /// Identifier of the surface.
    pub surface: u32,
    /// Whether the surface still exists.
    pub alive: bool,
    /// Whether the surface has the role of a popup.
    pub popup: bool,
    /// Identifier of the parent's surface, once the surface has a parent.
    pub parent: Option<u32>,
    /// A popup's distance from its parent's left edge.
    pub x: i32,
    /// A popup's distance from its parent's top edge.
    pub y: i32,
    /// The window geometry that the client set, if it set one.
    pub geometry: Option<Rectangle>,
    /// The box around the surface and the surfaces below it, relative to
    /// the surface.
    pub bbox: Rectangle,
}

/// What is known of the surfaces of a display at the moment.
#[derive(Debug)]
pub struct DisplayState {
    /// The surfaces; of two entries for one surface the first counts.
    pub surfaces: Vec<SurfaceInfo>,
}

/// The surface of a popup.
#[derive(Clone, Copy, Debug, PartialEq, Eq, Structural)]
pub struct PopupSurface {
    /// Identifier of the surface.
    pub surface: u32,
}

/// A popup surface.
#[derive(Clone, Copy, Debug, PartialEq, Eq, Structural)]
pub enum PopupKind {
    /// A popup of the xdg shell.
    Xdg(PopupSurface),
}

/// A popup at its place relative to its toplevel surface.
#[derive(Clone, Copy, Debug, PartialEq, Eq, Structural)]
pub struct PlacedPopup {
    /// The popup.
    pub popup: PopupKind,
    /// Distance from the toplevel's left edge.
    pub x: i32,
    /// Distance from the toplevel's top edge.
    pub y: i32,
}

/// A surface that an operation needed is gone.
#[derive(Clone, Copy, Debug, PartialEq, Eq, Structural)]
pub struct DeadResource;

/// A popup with the popups that hang below it.
#[derive(Debug)]
pub struct PopupNode {
    surface: PopupKind,
    children: Vec<PopupNode>,
}

/// The popups that hang below one toplevel surface.
#[derive(Debug)]
pub struct PopupTree {
    root: u32,
    nodes: Vec<PopupNode>,
}

/// Keeps track of popups.
#[derive(Debug)]
pub struct PopupManager {
    unmapped_popups: Vec<PopupKind>,
    popup_trees: Vec<PopupTree>,
}

/// The value of a popup node: the popup and the values of the nodes below it.
pub struct NodeView {
    pub surface: PopupKind,
    pub children: Seq<NodeView>,
}

/// The value of a popup tree.
pub struct TreeView {
    pub root: u32,
    pub nodes: Seq<NodeView>,
}

/// The first entry at or after `from` for the surface.
pub open spec fn info_from(surfaces: Seq<SurfaceInfo>, surface: u32, from: int) -> Option<SurfaceInfo>
    decreases surfaces.len() - from,
{
    if from < 0 || from >= surfaces.len() {
        None
    } else if surfaces[from].surface == surface {
        Some(surfaces[from])
    } else {
        info_from(surfaces, surface, from + 1)
    }
}

/// What is known of a surface that exists; nothing of one that is gone or
/// was never heard of.
pub open spec fn living(surfaces: Seq<SurfaceInfo>, surface: u32) -> Option<SurfaceInfo> {
    match info_from(surfaces, surface, 0) {
        Some(info) => if info.alive {
            Some(info)
        } else {
            None
        },
        None => None,
    }
}

/// A coordinate moved by a distance, kept within the range of coordinates.
pub open spec fn moved(from: i32, by: i32) -> i32 {
    if from + by > i32::MAX {
        i32::MAX
    } else if from + by < i32::MIN {
        i32::MIN
    } else {
        (from + by) as i32
    }
}

impl PopupKind {
    /// Identifier of the popup's surface.
    pub open spec fn id(self) -> u32 {
        match self {
            PopupKind::Xdg(popup) => popup.surface,
        }
    }

    /// The popup's surface, while it exists.
    pub open spec fn shown(self, surfaces: Seq<SurfaceInfo>) -> Option<u32> {
        match living(surfaces, self.id()) {
            Some(_) => Some(self.id()),
            None => None,
        }
    }

    /// The surface of the popup's parent, while the popup exists and has one.
    pub open spec fn parent_in(self, surfaces: Seq<SurfaceInfo>) -> Option<u32> {
        match living(surfaces, self.id()) {
            Some(info) => info.parent,
            None => None,
        }
    }

    /// The popup's place relative to its parent: the origin once it is gone.
    pub open spec fn place(self, surfaces: Seq<SurfaceInfo>) -> (i32, i32) {
        match living(surfaces, self.id()) {
            Some(info) => (info.x, info.y),
            None => (0i32, 0i32),
        }
    }
}

/// Whether the node or a node below it is the popup of the surface.
pub open spec fn node_holds(node: NodeView, surfaces: Seq<SurfaceInfo>, surface: u32) -> bool
    decreases node, 0nat,
{
    node.surface.shown(surfaces) == Some(surface) || first_holder(
        node.children,
        surfaces,
        surface,
        0,
    ) is Some
}

/// Position of the first node at or after `from` that holds the surface.
pub open spec fn first_holder(children: Seq<NodeView>, surfaces: Seq<SurfaceInfo>, surface: u32, from: int)
    -> Option<int>
    decreases children, children.len() - from,
{
    if from < 0 || from >= children.len() {
        None
    } else if node_holds(children[from], surfaces, surface) {
        Some(from)
    } else {
        first_holder(children, surfaces, surface, from + 1)
    }
}

/// A node without nodes below it.
pub open spec fn leaf(popup: PopupKind) -> NodeView {
    NodeView { surface: popup, children: Seq::empty() }
}

/// The node after a popup with the given parent was hung into it: directly
/// below the node where the node is the parent, else into the first node
/// below it that holds the parent. A node that does not hold the parent
/// stays as it is.
pub open spec fn node_inserted(node: NodeView, surfaces: Seq<SurfaceInfo>, popup: PopupKind, parent: u32)
    -> NodeView
    decreases node,
{
    if node.surface.shown(surfaces) == Some(parent) {
        NodeView { surface: node.surface, children: node.children.push(leaf(popup)) }
    } else {
        match first_holder(node.children, surfaces, parent, 0) {
            Some(i) => if 0 <= i < node.children.len() {
                NodeView {
                    surface: node.surface,
                    children: node.children.update(
                        i,
                        node_inserted(node.children[i], surfaces, popup, parent),
                    ),
                }
            } else {
                node
            },
            None => node,
        }
    }
}

/// The nodes after a popup with the given parent was hung into them: into
/// the first node that holds the parent, or as a new node at the end where
/// none does.
pub open spec fn nodes_inserted(
    nodes: Seq<NodeView>,
    surfaces: Seq<SurfaceInfo>,
    popup: PopupKind,
    parent: u32,
) -> Seq<NodeView> {
    match first_holder(nodes, surfaces, parent, 0) {
        Some(i) => nodes.update(i, node_inserted(nodes[i], surfaces, popup, parent)),
        None => nodes.push(leaf(popup)),
    }
}

/// The popups of a node, the node's own first and then those below it, node
/// by node, each at its place relative to the place `(x, y)` of the node's
/// parent.
pub open spec fn node_popups(node: NodeView, surfaces: Seq<SurfaceInfo>, x: i32, y: i32) -> Seq<
    PlacedPopup,
>
    decreases node, 0nat,
{
    let place = node.surface.place(surfaces);
    let at_x = moved(x, place.0);
    let at_y = moved(y, place.1);
    seq![PlacedPopup { popup: node.surface, x: at_x, y: at_y }] + nodes_popups(
        node.children,
        surfaces,
        at_x,
        at_y,
        node.children.len() as int,
    )
}

/// The popups of the first `n` nodes, node by node.
pub open spec fn nodes_popups(children: Seq<NodeView>, surfaces: Seq<SurfaceInfo>, x: i32, y: i32, n: int)
    -> Seq<PlacedPopup>
    decreases children, n,
{
    if n <= 0 || n > children.len() {
        Seq::empty()
    } else {
        nodes_popups(children, surfaces, x, y, n - 1) + node_popups(children[n - 1], surfaces, x, y)
    }
}

/// The node without the popups below it that are gone. A popup that is gone
/// takes everything below it with it.
pub open spec fn node_pruned(node: NodeView, surfaces: Seq<SurfaceInfo>) -> NodeView
    decreases node, 0nat,
{
    NodeView {
        surface: node.surface,
        children: nodes_pruned(node.children, surfaces, node.children.len() as int),
    }
}

/// The first `n` nodes without the popups that are gone.
pub open spec fn nodes_pruned(children: Seq<NodeView>, surfaces: Seq<SurfaceInfo>, n: int) -> Seq<
    NodeView,
>
    decreases children, n,
{
    if n <= 0 || n > children.len() {
        Seq::empty()
    } else {
        let before = nodes_pruned(children, surfaces, n - 1);
        if children[n - 1].surface.shown(surfaces) is Some {
            before.push(node_pruned(children[n - 1], surfaces))
        } else {
            before
        }
    }
}

/// The value of a node.
pub closed spec fn node_view(node: PopupNode) -> NodeView
    decreases node, 0nat,
{
    NodeView { surface: node.surface, children: nodes_view(node.children@, node.children@.len() as int) }
}

/// The values of the first `n` nodes.
pub closed spec fn nodes_view(children: Seq<PopupNode>, n: int) -> Seq<NodeView>
    decreases children, n,
{
    if n <= 0 || n > children.len() {
        Seq::empty()
    } else {
        nodes_view(children, n - 1).push(node_view(children[n - 1]))
    }
}

/// The value of a popup manager.
pub struct ManagerView {
    /// The popups that wait for their parent, oldest first.
    pub unmapped: Seq<PopupKind>,
    /// The trees of popups, oldest first.
    pub trees: Seq<TreeView>,
}

/// The toplevel surface at the upper end of the chain of parents that starts
/// at a surface, following at most `fuel` popups. There is none where a
/// surface of the chain is gone, where a popup of the chain has no parent,
/// or where the chain is longer than `fuel`.
pub open spec fn root_of(surfaces: Seq<SurfaceInfo>, surface: u32, fuel: nat) -> Option<u32>
    decreases fuel,
{
    match living(surfaces, surface) {
        None => None,
        Some(info) => if !info.popup {
            Some(surface)
        } else if fuel == 0 {
            None
        } else {
            match info.parent {
                Some(parent) => root_of(surfaces, parent, (fuel - 1) as nat),
                None => None,
            }
        },
    }
}

/// Position of the first tree at or after `from` that hangs below the surface.
pub open spec fn tree_position(trees: Seq<TreeView>, root: u32, from: int) -> Option<int>
    decreases trees.len() - from,
{
    if from < 0 || from >= trees.len() {
        None
    } else if trees[from].root == root {
        Some(from)
    } else {
        tree_position(trees, root, from + 1)
    }
}

/// Position of the first popup at or after `from` whose surface exists and
/// is the given one.
pub open spec fn shown_position(popups: Seq<PopupKind>, surfaces: Seq<SurfaceInfo>, surface: u32, from: int)
    -> Option<int>
    decreases popups.len() - from,
{
    if from < 0 || from >= popups.len() {
        None
    } else if popups[from].shown(surfaces) == Some(surface) {
        Some(from)
    } else {
        shown_position(popups, surfaces, surface, from + 1)
    }
}

/// Position of the first placed popup at or after `from` whose surface
/// exists and is the given one.
pub open spec fn placed_position(
    placed: Seq<PlacedPopup>,
    surfaces: Seq<SurfaceInfo>,
    surface: u32,
    from: int,
) -> Option<int>
    decreases placed.len() - from,
{
    if from < 0 || from >= placed.len() {
        None
    } else if placed[from].popup.shown(surfaces) == Some(surface) {
        Some(from)
    } else {
        placed_position(placed, surfaces, surface, from + 1)
    }
}

/// The popups of the first `n` trees, tree by tree, each at its place
/// relative to its toplevel surface.
pub open spec fn all_popups(trees: Seq<TreeView>, surfaces: Seq<SurfaceInfo>, n: int) -> Seq<
    PlacedPopup,
>
    decreases n,
{
    if n <= 0 || n > trees.len() {
        Seq::empty()
    } else {
        all_popups(trees, surfaces, n - 1) + nodes_popups(
            trees[n - 1].nodes,
            surfaces,
            0,
            0,
            trees[n - 1].nodes.len() as int,
        )
    }
}

/// The first `n` trees without the popups that are gone, and without the
/// trees that are left without a popup.
pub open spec fn trees_cleaned(trees: Seq<TreeView>, surfaces: Seq<SurfaceInfo>, n: int) -> Seq<
    TreeView,
>
    decreases n,
{
    if n <= 0 || n > trees.len() {
        Seq::empty()
    } else {
        let before = trees_cleaned(trees, surfaces, n - 1);
        let nodes = nodes_pruned(trees[n - 1].nodes, surfaces, trees[n - 1].nodes.len() as int);
        if nodes.len() > 0 {
            before.push(TreeView { root: trees[n - 1].root, nodes })
        } else {
            before
        }
    }
}

impl ManagerView {
    /// The manager after a popup with the given parent was hung into the
    /// tree of its toplevel surface; a new tree is made where the toplevel
    /// has none. Without a toplevel surface nothing changes.
    pub open spec fn added(self, surfaces: Seq<SurfaceInfo>, popup: PopupKind, parent: u32)
        -> ManagerView {
        match root_of(surfaces, parent, surfaces.len()) {
            None => self,
            Some(root) => match tree_position(self.trees, root, 0) {
                Some(t) => ManagerView {
                    trees: self.trees.update(
                        t,
                        TreeView {
                            root,
                            nodes: nodes_inserted(self.trees[t].nodes, surfaces, popup, parent),
                        },
                    ),
                    ..self
                },
                None => ManagerView {
                    trees: self.trees.push(TreeView { root, nodes: seq![leaf(popup)] }),
                    ..self
                },
            },
        }
    }

    /// The manager after a popup was handed to it: hung into a tree where it
    /// has a parent, waiting for its parent where it has none.
    pub open spec fn taken_in(self, surfaces: Seq<SurfaceInfo>, popup: PopupKind) -> ManagerView {
        match popup.parent_in(surfaces) {
            Some(parent) => self.added(surfaces, popup, parent),
            None => ManagerView { unmapped: self.unmapped.push(popup), ..self },
        }
    }

    /// The waiting popup that a commit of the surface maps: the first
    /// waiting popup of a popup surface that exists, if it has a parent now.
    pub open spec fn mapped_by(self, surfaces: Seq<SurfaceInfo>, surface: u32) -> Option<int> {
        match living(surfaces, surface) {
            Some(info) => if info.popup {
                match shown_position(self.unmapped, surfaces, surface, 0) {
                    Some(i) => if self.unmapped[i].parent_in(surfaces) is Some {
                        Some(i)
                    } else {
                        None
                    },
                    None => None,
                }
            } else {
                None
            },
            None => None,
        }
    }

    /// The manager after a commit of the surface: the popup that the commit
    /// maps waits no longer, the last waiting popup takes its place, and it
    /// is hung into the tree of its toplevel surface.
    pub open spec fn committed(self, surfaces: Seq<SurfaceInfo>, surface: u32) -> ManagerView {
        match self.mapped_by(surfaces, surface) {
            Some(i) => (ManagerView {
                unmapped: self.unmapped.update(i, self.unmapped.last()).drop_last(),
                ..self
            }).added(surfaces, self.unmapped[i], self.unmapped[i].parent_in(surfaces)->0),
            None => self,
        }
    }

    /// The popup of a surface: the first waiting popup with that surface, or
    /// else the first popup of the trees with it.
    pub open spec fn found(self, surfaces: Seq<SurfaceInfo>, surface: u32) -> Option<PopupKind> {
        match shown_position(self.unmapped, surfaces, surface, 0) {
            Some(i) => Some(self.unmapped[i]),
            None => {
                let placed = all_popups(self.trees, surfaces, self.trees.len() as int);
                match placed_position(placed, surfaces, surface, 0) {
                    Some(i) => Some(placed[i].popup),
                    None => None,
                }
            },
        }
    }

    /// The popups below a toplevel surface, each at its place relative to
    /// it: those of the first tree of that surface, or none.
    pub open spec fn popups_below(self, surfaces: Seq<SurfaceInfo>, surface: u32) -> Seq<PlacedPopup> {
        match tree_position(self.trees, surface, 0) {
            Some(t) => nodes_popups(
                self.trees[t].nodes,
                surfaces,
                0,
                0,
                self.trees[t].nodes.len() as int,
            ),
            None => Seq::empty(),
        }
    }

    /// The manager without the popups that are gone.
    pub open spec fn cleaned(self, surfaces: Seq<SurfaceInfo>) -> ManagerView {
        ManagerView {
            unmapped: self.unmapped.filter(|p: PopupKind| p.shown(surfaces) is Some),
            trees: trees_cleaned(self.trees, surfaces, self.trees.len() as int),
        }
    }
}

/// The values of a list of trees, in order.
pub open spec fn tree_views(trees: Seq<PopupTree>) -> Seq<TreeView> {
    Seq::new(trees.len(), |i: int| trees[i]@)
}

/// The values of the first `n` nodes are the values of the nodes, one by one.
proof fn lemma_nodes_view(children: Seq<PopupNode>, n: int)
    requires
        0 <= n <= children.len(),
    ensures
        nodes_view(children, n).len() == n,
        forall|j: int| 0 <= j < n ==> (#[trigger] nodes_view(children, n)[j]) == node_view(children[j]),
    decreases n,
{
    if n > 0 {
        lemma_nodes_view(children, n - 1);
    }
}

/// Lists of nodes with the same values, one by one, have the same values.
proof fn lemma_nodes_view_same(a: Seq<PopupNode>, b: Seq<PopupNode>)
    requires
        a.len() == b.len(),
        forall|j: int| 0 <= j < a.len() ==> node_view(#[trigger] a[j]) == node_view(b[j]),
    ensures
        nodes_view(a, a.len() as int) == nodes_view(b, b.len() as int),
{
    lemma_nodes_view(a, a.len() as int);
    lemma_nodes_view(b, b.len() as int);
}

impl DisplayState {
    /// What is known of a surface, if anything.
    pub fn info(&self, surface: u32) -> (r: Option<SurfaceInfo>)
        ensures
            r == info_from(self.surfaces@, surface, 0),
    {
        let mut i: usize = 0;
        while i < self.surfaces.len()
            invariant
                i <= self.surfaces.len(),
                info_from(self.surfaces@, surface, 0) == info_from(self.surfaces@, surface, i as int),
            decreases self.surfaces.len() - i,
        {
            if self.surfaces[i].surface == surface {
                return Some(self.surfaces[i]);
            }
            i += 1;
        }
        None
    }

    /// What is known of a surface that exists.
    pub fn living(&self, surface: u32) -> (r: Option<SurfaceInfo>)
        ensures
            r == living(self.surfaces@, surface),
    {
        match self.info(surface) {
            Some(info) => if info.alive {
                Some(info)
            } else {
                None
            },
            None => None,
        }
    }
}

impl PopupKind {
    /// Identifier of the popup's surface, whether it exists or not.
    pub fn surface_id(&self) -> (r: u32)
        ensures
            r == self.id(),
    {
        match self {
            PopupKind::Xdg(popup) => popup.surface,
        }
    }

    /// Tells whether the popup's surface still exists.
    pub fn alive(&self, cx: &DisplayState) -> (r: bool)
        ensures
            r == (self.shown(cx.surfaces@) is Some),
    {
        cx.living(self.surface_id()).is_some()
    }

    /// The popup's surface, while it exists.
    pub fn get_surface(&self, cx: &DisplayState) -> (r: Option<u32>)
        ensures
            r == self.shown(cx.surfaces@),
    {
        match cx.living(self.surface_id()) {
            Some(_) => Some(self.surface_id()),
            None => None,
        }
    }

    /// The surface of the popup's parent, while the popup exists and has one.
    pub fn parent(&self, cx: &DisplayState) -> (r: Option<u32>)
        ensures
            r == self.parent_in(cx.surfaces@),
    {
        match cx.living(self.surface_id()) {
            Some(info) => info.parent,
            None => None,
        }
    }

    /// The window geometry that the client set: an empty rectangle in the
    /// origin where the surface is gone or no geometry was set.
    pub fn geometry(&self, cx: &DisplayState) -> (r: Rectangle)
        ensures
            r == match living(cx.surfaces@, self.id()) {
                Some(info) => match info.geometry {
                    Some(geometry) => geometry,
                    None => Rectangle { x: 0, y: 0, width: 0, height: 0 },
                },
                None => Rectangle { x: 0, y: 0, width: 0, height: 0 },
            },
    {
        match cx.living(self.surface_id()) {
            Some(info) => match info.geometry {
                Some(geometry) => geometry,
                None => Rectangle { x: 0, y: 0, width: 0, height: 0 },
            },
            None => Rectangle { x: 0, y: 0, width: 0, height: 0 },
        }
    }

    /// The popup's place relative to its parent: the origin once it is gone.
    pub fn location(&self, cx: &DisplayState) -> (r: (i32, i32))
        ensures
            r == self.place(cx.surfaces@),
    {
        match cx.living(self.surface_id()) {
            Some(info) => (info.x, info.y),
            None => (0, 0),
        }
    }
}

/// Moves a coordinate by a distance, keeping it within the range of
/// coordinates.
pub fn move_by(from: i32, by: i32) -> (r: i32)
    ensures
        r == moved(from, by),
{
    let sum: i64 = from as i64 + by as i64;
    if sum > i32::MAX as i64 {
        i32::MAX
    } else if sum < i32::MIN as i64 {
        i32::MIN
    } else {
        sum as i32
    }
}

impl View for PopupNode {
    type V = NodeView;

    closed spec fn view(&self) -> NodeView {
        node_view(*self)
    }
}

impl PopupNode {
    /// A popup with nothing below it.
    pub fn new(surface: PopupKind) -> (r: PopupNode)
        ensures
            r@ == leaf(surface),
    {
        let r = PopupNode { surface, children: Vec::new() };
        r
    }

    /// The popup of the node.
    pub fn surface(&self) -> (r: PopupKind)
        ensures
            r == self@.surface,
    {
        self.surface
    }

    /// The nodes directly below the node, oldest first.
    pub fn children(&self) -> (r: &Vec<PopupNode>)
        ensures
            r@.len() == self@.children.len(),
            forall|j: int| 0 <= j < r@.len() ==> (#[trigger] r@[j])@ == self@.children[j],
    {
        proof {
            lemma_nodes_view(self.children@, self.children@.len() as int);
        }
        &self.children
    }

    /// Hangs a popup with the given parent into the node: directly below the
    /// node where the node is the parent, else into the first node below it
    /// that holds the parent. Returns whether the node holds the parent; a
    /// node that does not stays as it is.
    pub fn insert(&mut self, cx: &DisplayState, popup: PopupKind, parent: u32) -> (r: bool)
        ensures
            r == node_holds(old(self)@, cx.surfaces@, parent),
            final(self)@ == node_inserted(old(self)@, cx.surfaces@, popup, parent),
        decreases *old(self),
    {
        let ghost before = old(self).children@;
        let ghost views = old(self)@.children;
        proof {
            lemma_nodes_view(before, before.len() as int);
        }
        let is_parent = match self.surface.get_surface(cx) {
            Some(surface) => surface == parent,
            None => false,
        };
        if is_parent {
            self.children.push(PopupNode::new(popup));
            proof {
                lemma_nodes_view(self.children@, self.children@.len() as int);
                assert(node_view(*self).children =~= views.push(leaf(popup)));
            }
            return true;
        }
        let mut i: usize = 0;
        while i < self.children.len()
            invariant
                i <= self.children.len(),
                self.surface == old(self).surface,
                self.children@.len() == before.len(),
                before == old(self).children@,
                views == old(self)@.children,
                views.len() == before.len(),
                forall|j: int| 0 <= j < before.len() ==> (#[trigger] views[j]) == node_view(before[j]),
                forall|j: int| i <= j < before.len() ==> (#[trigger] self.children@[j]) == before[j],
                forall|j: int|
                    0 <= j < i ==> node_view(#[trigger] self.children@[j]) == node_view(before[j]),
                first_holder(views, cx.surfaces@, parent, 0) == first_holder(
                    views,
                    cx.surfaces@,
                    parent,
                    i as int,
                ),
                !(old(self)@.surface.shown(cx.surfaces@) == Some(parent)),
            decreases self.children.len() - i,
        {
            if self.children[i].insert(cx, popup, parent) {
                proof {
                    lemma_nodes_view(self.children@, self.children@.len() as int);
                    assert(node_view(*self).children =~= views.update(
                        i as int,
                        node_inserted(views[i as int], cx.surfaces@, popup, parent),
                    ));
                }
                return true;
            }
            i += 1;
        }
        proof {
            lemma_nodes_view_same(self.children@, before);
        }
        false
    }

    /// Collects the popups of the node, the node's own first and then those
    /// below it, each at its place relative to the place `(x, y)` of the
    /// node's parent.
    pub fn iter_popups_relative_to(&self, cx: &DisplayState, x: i32, y: i32, out: &mut Vec<PlacedPopup>)
        ensures
            final(out)@ == old(out)@ + node_popups(self@, cx.surfaces@, x, y),
        decreases self,
    {
        let place = self.surface.location(cx);
        let at_x = move_by(x, place.0);
        let at_y = move_by(y, place.1);
        out.push(PlacedPopup { popup: self.surface, x: at_x, y: at_y });
        let ghost views = self@.children;
        let ghost start = out@;
        proof {
            lemma_nodes_view(self.children@, self.children@.len() as int);
        }
        let mut i: usize = 0;
        while i < self.children.len()
            invariant
                i <= self.children.len(),
                views == self@.children,
                views.len() == self.children@.len(),
                forall|j: int|
                    0 <= j < views.len() ==> (#[trigger] views[j]) == node_view(self.children@[j]),
                out@ == start + nodes_popups(views, cx.surfaces@, at_x, at_y, i as int),
            decreases self.children.len() - i,
        {
            self.children[i].iter_popups_relative_to(cx, at_x, at_y, out);
            i += 1;
        }
    }

    /// Drops the popups below the node that are gone, each with everything
    /// below it.
    pub fn cleanup(&mut self, cx: &DisplayState)
        ensures
            final(self)@ == node_pruned(old(self)@, cx.surfaces@),
        decreases *old(self),
    {
        let ghost before = old(self).children@;
        let ghost views = old(self)@.children;
        proof {
            lemma_nodes_view(before, before.len() as int);
        }
        let mut rest: Vec<PopupNode> = Vec::new();
        std::mem::swap(&mut self.children, &mut rest);
        let ghost mut moved: int = 0;
        while rest.len() > 0
            invariant
                0 <= moved <= before.len(),
                self.surface == old(self).surface,
                before == old(self).children@,
                views.len() == before.len(),
                forall|j: int| 0 <= j < before.len() ==> (#[trigger] views[j]) == node_view(before[j]),
                rest@ == before.skip(moved),
                nodes_view(self.children@, self.children@.len() as int) == nodes_pruned(
                    views,
                    cx.surfaces@,
                    moved,
                ),
            decreases rest.len(),
        {
            let mut child = rest.remove(0);
            child.cleanup(cx);
            let ghost kept = self.children@;
            if child.surface.alive(cx) {
                self.children.push(child);
                proof {
                    lemma_nodes_view(kept, kept.len() as int);
                    lemma_nodes_view(self.children@, self.children@.len() as int);
                }
            }
            proof {
                moved = moved + 1;
            }
        }
    }
}

impl View for PopupTree {
    type V = TreeView;

    closed spec fn view(&self) -> TreeView {
        TreeView { root: self.root, nodes: nodes_view(self.nodes@, self.nodes@.len() as int) }
    }
}

impl PopupTree {
    /// A tree without popups below a toplevel surface.
    pub fn new(root: u32) -> (r: PopupTree)
        ensures
            r@ == (TreeView { root, nodes: Seq::empty() }),
    {
        let r = PopupTree { root, nodes: Vec::new() };
        r
    }

    /// The toplevel surface that the tree hangs below.
    pub fn root(&self) -> (r: u32)
        ensures
            r == self@.root,
    {
        self.root
    }

    /// Tells whether the tree holds a popup.
    pub fn alive(&self) -> (r: bool)
        ensures
            r == (self@.nodes.len() > 0),
    {
        proof {
            lemma_nodes_view(self.nodes@, self.nodes@.len() as int);
        }
        self.nodes.len() > 0
    }

    /// Hangs a popup with the given parent into the tree: into the first
    /// node that holds the parent, or directly below the toplevel surface
    /// where none does.
    pub fn insert(&mut self, cx: &DisplayState, popup: PopupKind, parent: u32)
        ensures
            final(self)@ == (TreeView {
                root: old(self)@.root,
                nodes: nodes_inserted(old(self)@.nodes, cx.surfaces@, popup, parent),
            }),
    {
        let ghost before = old(self).nodes@;
        let ghost views = old(self)@.nodes;
        proof {
            lemma_nodes_view(before, before.len() as int);
        }
        let mut i: usize = 0;
        while i < self.nodes.len()
            invariant
                i <= self.nodes.len(),
                self.root == old(self).root,
                self.nodes@.len() == before.len(),
                before == old(self).nodes@,
                views == old(self)@.nodes,
                views.len() == before.len(),
                forall|j: int| 0 <= j < before.len() ==> (#[trigger] views[j]) == node_view(before[j]),
                forall|j: int| i <= j < before.len() ==> (#[trigger] self.nodes@[j]) == before[j],
                forall|j: int| 0 <= j < i ==> node_view(#[trigger] self.nodes@[j]) == node_view(before[j]),
                first_holder(views, cx.surfaces@, parent, 0) == first_holder(
                    views,
                    cx.surfaces@,
                    parent,
                    i as int,
                ),
            decreases self.nodes.len() - i,
        {
            if self.nodes[i].insert(cx, popup, parent) {
                proof {
                    lemma_nodes_view(self.nodes@, self.nodes@.len() as int);
                    assert(self@.nodes =~= views.update(
                        i as int,
                        node_inserted(views[i as int], cx.surfaces@, popup, parent),
                    ));
                }
                return ;
            }
            i += 1;
        }
        self.nodes.push(PopupNode::new(popup));
        proof {
            lemma_nodes_view(self.nodes@, self.nodes@.len() as int);
            assert(self@.nodes =~= views.push(leaf(popup)));
        }
    }

    /// Collects the popups of the tree, node by node, each at its place
    /// relative to the toplevel surface.
    pub fn iter_popups(&self, cx: &DisplayState) -> (r: Vec<PlacedPopup>)
        ensures
            r@ == nodes_popups(self@.nodes, cx.surfaces@, 0, 0, self@.nodes.len() as int),
    {
        let mut out: Vec<PlacedPopup> = Vec::new();
        let ghost views = self@.nodes;
        proof {
            lemma_nodes_view(self.nodes@, self.nodes@.len() as int);
        }
        let mut i: usize = 0;
        while i < self.nodes.len()
            invariant
                i <= self.nodes.len(),
                views == self@.nodes,
                views.len() == self.nodes@.len(),
                forall|j: int| 0 <= j < views.len() ==> (#[trigger] views[j]) == node_view(self.nodes@[j]),
                out@ == nodes_popups(views, cx.surfaces@, 0, 0, i as int),
            decreases self.nodes.len() - i,
        {
            self.nodes[i].iter_popups_relative_to(cx, 0, 0, &mut out);
            i += 1;
        }
        out
    }

    /// Drops the popups of the tree that are gone, each with everything
    /// below it.
    pub fn cleanup(&mut self, cx: &DisplayState)
        ensures
            final(self)@ == (TreeView {
                root: old(self)@.root,
                nodes: nodes_pruned(old(self)@.nodes, cx.surfaces@, old(self)@.nodes.len() as int),
            }),
    {
        let ghost before = old(self).nodes@;
        let ghost views = old(self)@.nodes;
        proof {
            lemma_nodes_view(before, before.len() as int);
        }
        let mut rest: Vec<PopupNode> = Vec::new();
        std::mem::swap(&mut self.nodes, &mut rest);
        let ghost mut moved: int = 0;
        while rest.len() > 0
            invariant
                0 <= moved <= before.len(),
                self.root == old(self).root,
                before == old(self).nodes@,
                views.len() == before.len(),
                forall|j: int| 0 <= j < before.len() ==> (#[trigger] views[j]) == node_view(before[j]),
                rest@ == before.skip(moved),
                nodes_view(self.nodes@, self.nodes@.len() as int) == nodes_pruned(
                    views,
                    cx.surfaces@,
                    moved,
                ),
            decreases rest.len(),
        {
            let mut child = rest.remove(0);
            child.cleanup(cx);
            let ghost kept = self.nodes@;
            if child.surface().alive(cx) {
                self.nodes.push(child);
                proof {
                    lemma_nodes_view(kept, kept.len() as int);
                    lemma_nodes_view(self.nodes@, self.nodes@.len() as int);
                }
            }
            proof {
                moved = moved + 1;
            }
        }
    }
}

impl View for PopupManager {
    type V = ManagerView;

    closed spec fn view(&self) -> ManagerView {
        ManagerView { unmapped: self.unmapped_popups@, trees: tree_views(self.popup_trees@) }
    }
}

/// Finds the toplevel surface at the upper end of the chain of parents that
/// starts at a surface. There is none where a surface of the chain is gone,
/// where a popup of the chain has no parent, or where the chain does not end.
pub fn find_root(cx: &DisplayState, surface: u32) -> (r: Option<u32>)
    ensures
        r == root_of(cx.surfaces@, surface, cx.surfaces@.len()),
{
    let mut current = surface;
    let mut fuel: usize = cx.surfaces.len();
    loop
        invariant
            root_of(cx.surfaces@, surface, cx.surfaces@.len()) == root_of(
                cx.surfaces@,
                current,
                fuel as nat,
            ),
        decreases fuel,
    {
        match cx.living(current) {
            None => {
                return None;
            },
            Some(info) => {
                if !info.popup {
                    return Some(current);
                }
                if fuel == 0 {
                    return None;
                }
                match info.parent {
                    Some(parent) => {
                        current = parent;
                        fuel = fuel - 1;
                    },
                    None => {
                        return None;
                    },
                }
            },
        }
    }
}

impl PopupManager {
    /// A manager that tracks no popup.
    pub fn new() -> (r: PopupManager)
        ensures
            r@ == (ManagerView { unmapped: Seq::empty(), trees: Seq::empty() }),
    {
        let r = PopupManager { unmapped_popups: Vec::new(), popup_trees: Vec::new() };
        assert(tree_views(r.popup_trees@) =~= Seq::empty());
        r
    }

    /// The popups that wait for their parent, oldest first.
    pub fn unmapped(&self) -> (r: &Vec<PopupKind>)
        ensures
            r@ == self@.unmapped,
    {
        &self.unmapped_popups
    }

    /// The trees of popups, oldest first.
    pub fn trees(&self) -> (r: &Vec<PopupTree>)
        ensures
            tree_views(r@) == self@.trees,
    {
        &self.popup_trees
    }

    fn find_tree(&self, root: u32) -> (r: Option<usize>)
        ensures
            match r {
                Some(t) => t < self@.trees.len() && tree_position(self@.trees, root, 0) == Some(t as int)
                    && self@.trees[t as int].root == root,
                None => tree_position(self@.trees, root, 0) is None,
            },
    {
        let mut i: usize = 0;
        while i < self.popup_trees.len()
            invariant
                i <= self.popup_trees.len(),
                self@.trees == tree_views(self.popup_trees@),
                tree_position(self@.trees, root, 0) == tree_position(self@.trees, root, i as int),
            decreases self.popup_trees.len() - i,
        {
            if self.popup_trees[i].root() == root {
                return Some(i);
            }
            i += 1;
        }
        None
    }

    /// Starts to track a popup. A popup with a parent is hung into the tree
    /// of its toplevel surface; one without waits for its parent. Fails where
    /// the popup has a parent but no toplevel surface can be found for it.
    pub fn track_popup(&mut self, cx: &DisplayState, kind: PopupKind) -> (r: Result<(), DeadResource>)
        ensures
            final(self)@ == old(self)@.taken_in(cx.surfaces@, kind),
            r is Err <==> (kind.parent_in(cx.surfaces@) matches Some(parent) && root_of(
                cx.surfaces@,
                parent,
                cx.surfaces@.len(),
            ) is None),
    {
        match kind.parent(cx) {
            Some(parent) => self.add_popup(cx, kind, parent),
            None => {
                self.unmapped_popups.push(kind);
                Ok(())
            },
        }
    }

    /// Hangs a popup with the given parent into the tree of its toplevel
    /// surface, making the tree where the toplevel has none. Fails, and
    /// changes nothing, where no toplevel surface can be found.
    pub fn add_popup(&mut self, cx: &DisplayState, popup: PopupKind, parent: u32) -> (r: Result<
        (),
        DeadResource,
    >)
        ensures
            final(self)@ == old(self)@.added(cx.surfaces@, popup, parent),
            r is Err <==> root_of(cx.surfaces@, parent, cx.surfaces@.len()) is None,
    {
        let root = match find_root(cx, parent) {
            Some(root) => root,
            None => {
                return Err(DeadResource);
            },
        };
        match self.find_tree(root) {
            Some(t) => {
                self.popup_trees[t].insert(cx, popup, parent);
                assert(tree_views(self.popup_trees@) =~= old(self)@.added(
                    cx.surfaces@,
                    popup,
                    parent,
                ).trees);
            },
            None => {
                let mut tree = PopupTree::new(root);
                tree.insert(cx, popup, parent);
                self.popup_trees.push(tree);
                assert(tree_views(self.popup_trees@) =~= old(self)@.added(
                    cx.surfaces@,
                    popup,
                    parent,
                ).trees);
            },
        }
        Ok(())
    }

    /// Takes note of a commit of a surface. Where the surface is that of a
    /// waiting popup that has a parent now, the popup waits no longer and is
    /// hung into the tree of its toplevel surface; where no toplevel surface
    /// can be found for it, the popup is dropped.
    pub fn commit(&mut self, cx: &DisplayState, surface: u32)
        ensures
            final(self)@ == old(self)@.committed(cx.surfaces@, surface),
    {
        let is_popup = match cx.living(surface) {
            Some(info) => info.popup,
            None => false,
        };
        if !is_popup {
            return ;
        }
        let mut i: usize = 0;
        while i < self.unmapped_popups.len()
            invariant
                i <= self.unmapped_popups.len(),
                self@ == old(self)@,
                shown_position(self@.unmapped, cx.surfaces@, surface, 0) == shown_position(
                    self@.unmapped,
                    cx.surfaces@,
                    surface,
                    i as int,
                ),
                living(cx.surfaces@, surface) matches Some(info) && info.popup,
            decreases self.unmapped_popups.len() - i,
        {
            let shown = match self.unmapped_popups[i].get_surface(cx) {
                Some(s) => s == surface,
                None => false,
            };
            if shown {
                let popup = self.unmapped_popups[i];
                if let Some(parent) = popup.parent(cx) {
                    let _ = self.unmapped_popups.swap_remove(i);
                    let _ = self.add_popup(cx, popup, parent);
                }
                return ;
            }
            i += 1;
        }
    }

    /// Finds the popup of a surface: among the waiting popups first, then in
    /// the trees, tree by tree and node by node.
    pub fn find_popup(&self, cx: &DisplayState, surface: u32) -> (r: Option<PopupKind>)
        ensures
            r == self@.found(cx.surfaces@, surface),
    {
        let mut i: usize = 0;
        while i < self.unmapped_popups.len()
            invariant
                i <= self.unmapped_popups.len(),
                shown_position(self@.unmapped, cx.surfaces@, surface, 0) == shown_position(
                    self@.unmapped,
                    cx.surfaces@,
                    surface,
                    i as int,
                ),
            decreases self.unmapped_popups.len() - i,
        {
            let shown = match self.unmapped_popups[i].get_surface(cx) {
                Some(s) => s == surface,
                None => false,
            };
            if shown {
                return Some(self.unmapped_popups[i]);
            }
            i += 1;
        }
        let mut placed: Vec<PlacedPopup> = Vec::new();
        let mut t: usize = 0;
        while t < self.popup_trees.len()
            invariant
                t <= self.popup_trees.len(),
                self@.trees == tree_views(self.popup_trees@),
                placed@ == all_popups(self@.trees, cx.surfaces@, t as int),
            decreases self.popup_trees.len() - t,
        {
            let mut more = self.popup_trees[t].iter_popups(cx);
            placed.append(&mut more);
            t += 1;
        }
        let mut k: usize = 0;
        while k < placed.len()
            invariant
                k <= placed.len(),
                shown_position(self@.unmapped, cx.surfaces@, surface, 0) is None,
                placed@ == all_popups(self@.trees, cx.surfaces@, self@.trees.len() as int),
                placed_position(placed@, cx.surfaces@, surface, 0) == placed_position(
                    placed@,
                    cx.surfaces@,
                    surface,
                    k as int,
                ),
            decreases placed.len() - k,
        {
            let shown = match placed[k].popup.get_surface(cx) {
                Some(s) => s == surface,
                None => false,
            };
            if shown {
                return Some(placed[k].popup);
            }
            k += 1;
        }
        None
    }

    /// Collects the popups below a toplevel surface, each at its place
    /// relative to it. Fails where the surface is gone.
    pub fn popups_for_surface(&self, cx: &DisplayState, surface: u32) -> (r: Result<
        Vec<PlacedPopup>,
        DeadResource,
    >)
        ensures
            r is Err <==> living(cx.surfaces@, surface) is None,
            r matches Ok(popups) ==> popups@ == self@.popups_below(cx.surfaces@, surface),
    {
        if cx.living(surface).is_none() {
            return Err(DeadResource);
        }
        match self.find_tree(surface) {
            Some(t) => Ok(self.popup_trees[t].iter_popups(cx)),
            None => Ok(Vec::new()),
        }
    }

    /// Forgets the popups that are gone: in every tree, where a popup that
    /// is gone takes everything below it with it; the trees that are left
    /// without a popup; and among the waiting popups.
    pub fn cleanup(&mut self, cx: &DisplayState)
        ensures
            final(self)@ == old(self)@.cleaned(cx.surfaces@),
    {
        let ghost before = old(self).popup_trees@;
        let ghost views = old(self)@.trees;
        let mut rest: Vec<PopupTree> = Vec::new();
        std::mem::swap(&mut self.popup_trees, &mut rest);
        let ghost mut moved: int = 0;
        while rest.len() > 0
            invariant
                0 <= moved <= before.len(),
                self.unmapped_popups == old(self).unmapped_popups,
                views == tree_views(before),
                rest@ == before.skip(moved),
                tree_views(self.popup_trees@) == trees_cleaned(views, cx.surfaces@, moved),
            decreases rest.len(),
        {
            let mut tree = rest.remove(0);
            tree.cleanup(cx);
            if tree.alive() {
                self.popup_trees.push(tree);
            }
            proof {
                moved = moved + 1;
            }
        }
        let ghost waiting = self.unmapped_popups@;
        let mut alive: Vec<PopupKind> = Vec::new();
        let mut i: usize = 0;
        proof {
            reveal(Seq::filter);
        }
        while i < self.unmapped_popups.len()
            invariant
                i <= self.unmapped_popups.len(),
                self.unmapped_popups@ == waiting,
                tree_views(self.popup_trees@) == trees_cleaned(views, cx.surfaces@, before.len() as int),
                alive@ == waiting.take(i as int).filter(|p: PopupKind| p.shown(cx.surfaces@) is Some),
            decreases self.unmapped_popups.len() - i,
        {
            proof {
                reveal(Seq::filter);
                assert(waiting.take(i as int + 1).drop_last() =~= waiting.take(i as int));
            }
            let popup = self.unmapped_popups[i];
            if popup.alive(cx) {
                alive.push(popup);
            }
            i += 1;
        }
        assert(waiting.take(waiting.len() as int) =~= waiting);
        self.unmapped_popups = alive;
    }
}

} // verus!
