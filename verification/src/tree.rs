//! The engine's scene tree, as far as scene management reads and changes it.
//!
//! A node is known by its instance id. What has to be read off a node comes in as a
//! [`NodeSnapshot`]; what has to happen in the tree goes out as a list of [`TreeAction`]s, to be
//! performed in order.
use vstd::multiset::Multiset;
use vstd::prelude::*;

verus! {

/// The instance id of a node.
pub type NodeId = i64;

/// Whether and when a node is processed.
#[derive(Clone, Copy, Debug, PartialEq, Eq, Structural)]
pub enum ProcessMode {
    Inherit,
    Pausable,
    WhenPaused,
    Always,
    Disabled,
    /// A mode of a newer engine, by its number.
    Unrecognized(i32),
}

/// What is read off a node before it is put on the scene stack.
#[derive(Clone, Copy, Debug, PartialEq, Eq, Structural)]
pub struct NodeSnapshot {
    pub id: NodeId,
    pub has_parent: bool,
    pub process_mode: ProcessMode,
}

/// One change to the scene tree, or one signal of the scene manager.
#[derive(Clone, Copy, Debug, PartialEq, Eq, Structural)]
pub enum TreeAction {
    SetProcessMode { node: NodeId, mode: ProcessMode },
    /// Report to the manager when `scene` is about to leave the tree.
    ConnectTreeExiting { scene: NodeId },
    /// Undo one `ConnectTreeExiting` of `scene`, if its connection still stands.
    DisconnectTreeExiting { scene: NodeId },
    AddChild { parent: NodeId, child: NodeId },
    RemoveChild { parent: NodeId, child: NodeId },
    /// Put `node` right behind `sibling`, under the same parent.
    AddSibling { sibling: NodeId, node: NodeId },
    /// Make a new empty node, the placeholder, and add it to `parent`.
    AddPlaceholder { parent: NodeId },
    MovePlaceholder { parent: NodeId, position: i32 },
    /// Put `node` where the placeholder stands.
    ReplacePlaceholder { node: NodeId },
    FreePlaceholder,
    Free { node: NodeId },
    EmitScenePushed { scene: NodeId, index: u32 },
    EmitScenePopped { scene: NodeId, index: u32 },
    EmitSceneTransitioning { scene: NodeId, index: u32 },
}

/// The number that a signal carries for a stack index: the index itself, or the largest `u32`.
pub open spec fn signal_index(index: int) -> u32 {
    if index <= u32::MAX {
        index as u32
    } else {
        u32::MAX
    }
}

/// Narrows a stack index for a signal.
pub fn to_signal_index(index: usize) -> (narrowed: u32)
    ensures
        narrowed == signal_index(index as int),
{
    if index as u64 <= u32::MAX as u64 {
        index as u32
    } else {
        u32::MAX
    }
}

/// The process modes that nodes have once `actions` were performed on a tree where they had
/// `modes`.
pub open spec fn modes_after(
    modes: Map<NodeId, ProcessMode>,
    actions: Seq<TreeAction>,
) -> Map<NodeId, ProcessMode>
    decreases actions.len(),
{
    if actions.len() == 0 {
        modes
    } else {
        let before = modes_after(modes, actions.drop_last());
        match actions.last() {
            TreeAction::SetProcessMode { node, mode } => before.insert(node, mode),
            _ => before,
        }
    }
}

/// Performing two lists of actions one after the other sets the same process modes as performing
/// them as one list.
pub proof fn law_modes_after_concat(
    modes: Map<NodeId, ProcessMode>,
    first: Seq<TreeAction>,
    second: Seq<TreeAction>,
)
    ensures
        modes_after(modes, first + second) == modes_after(modes_after(modes, first), second),
    decreases second.len(),
{
    if second.len() == 0 {
        assert(first + second =~= first);
    } else {
        assert((first + second).drop_last() =~= first + second.drop_last());
        law_modes_after_concat(modes, first, second.drop_last());
    }
}

/// Which node is under which, as far as nodes are under any.
#[verifier::ext_equal]
pub struct TreeShape {
    /// The parent of each node that has one.
    pub parents: Map<NodeId, NodeId>,
    /// The parent of the placeholder, where it has one.
    pub placeholder: Option<NodeId>,
}

/// Whether each node of `path` but the last has the one behind it as its parent.
pub open spec fn is_path(parents: Map<NodeId, NodeId>, path: Seq<NodeId>) -> bool {
    forall|i: int|
        #![trigger parents[path[i]]]
        0 <= i < path.len() - 1 ==> parents.dom().contains(path[i]) && parents[path[i]] == path[i
            + 1]
}

/// Whether `node` is `top` or lies somewhere below it.
pub open spec fn is_within(parents: Map<NodeId, NodeId>, node: NodeId, top: NodeId) -> bool {
    exists|path: Seq<NodeId>| #[trigger]
        is_path(parents, path) && path.len() > 0 && path[0] == node && path.last() == top
}

impl TreeShape {
    /// Whether `node` has a parent.
    pub open spec fn has_parent(self, node: NodeId) -> bool {
        self.parents.dom().contains(node)
    }

    /// The shape once `child` was to be put under `parent`. The engine refuses a child that has a
    /// parent, and one that the parent is within.
    pub open spec fn adopted(self, parent: NodeId, child: NodeId) -> TreeShape {
        if self.has_parent(child) || is_within(self.parents, parent, child) {
            self
        } else {
            TreeShape { parents: self.parents.insert(child, parent), ..self }
        }
    }

    /// The shape after one action. What lies below a node that is freed goes with it, and is not
    /// followed.
    pub open spec fn after(self, action: TreeAction) -> TreeShape {
        match action {
            TreeAction::AddChild { parent, child } => self.adopted(parent, child),
            TreeAction::RemoveChild { parent, child } => if self.has_parent(child)
                && self.parents[child] == parent {
                TreeShape { parents: self.parents.remove(child), ..self }
            } else {
                self
            },
            TreeAction::AddSibling { sibling, node } => if self.has_parent(sibling) {
                self.adopted(self.parents[sibling], node)
            } else {
                self
            },
            TreeAction::AddPlaceholder { parent } => TreeShape {
                placeholder: Some(parent),
                ..self
            },
            TreeAction::ReplacePlaceholder { node } => if self.placeholder is Some
                && !self.has_parent(node) {
                TreeShape { placeholder: None, ..self.adopted(self.placeholder->0, node) }
            } else {
                self
            },
            TreeAction::FreePlaceholder => TreeShape { placeholder: None, ..self },
            TreeAction::Free { node } => TreeShape { parents: self.parents.remove(node), ..self },
            _ => self,
        }
    }
}

/// The shape of a tree once `actions` were performed where it had the shape `shape`.
pub open spec fn parents_after(shape: TreeShape, actions: Seq<TreeAction>) -> TreeShape
    decreases actions.len(),
{
    if actions.len() == 0 {
        shape
    } else {
        parents_after(shape, actions.drop_last()).after(actions.last())
    }
}

/// Performing two lists of actions one after the other gives the tree the same shape as performing
/// them as one list.
pub proof fn law_parents_after_concat(
    shape: TreeShape,
    first: Seq<TreeAction>,
    second: Seq<TreeAction>,
)
    ensures
        parents_after(shape, first + second) == parents_after(parents_after(shape, first), second),
    decreases second.len(),
{
    if second.len() == 0 {
        assert(first + second =~= first);
    } else {
        assert((first + second).drop_last() =~= first + second.drop_last());
        law_parents_after_concat(shape, first, second.drop_last());
    }
}

/// A place among the children of a node.
pub enum Slot {
    Node(NodeId),
    Placeholder,
}

impl TreeShape {
    /// Whether the engine puts `child` under `parent` when it is asked to.
    pub open spec fn accepts(self, parent: NodeId, child: NodeId) -> bool {
        !self.has_parent(child) && !is_within(self.parents, parent, child)
    }

    /// Whether `node` is right under `parent`.
    pub open spec fn is_under(self, node: NodeId, parent: NodeId) -> bool {
        self.has_parent(node) && self.parents[node] == parent
    }
}

/// The children of `parent`, in order, after one action in a tree of shape `shape` where they were
/// `children`. A new child goes behind all others, a sibling right behind the node that it is a
/// sibling of, and what replaces the placeholder where that stands.
pub open spec fn children_step(
    parent: NodeId,
    shape: TreeShape,
    children: Seq<Slot>,
    action: TreeAction,
) -> Seq<Slot> {
    match action {
        TreeAction::AddChild { parent: p, child } => if p == parent && shape.accepts(p, child) {
            children.push(Slot::Node(child))
        } else {
            children
        },
        TreeAction::AddSibling { sibling, node } => if shape.is_under(sibling, parent)
            && shape.accepts(parent, node) {
            children.insert(children.index_of(Slot::Node(sibling)) + 1, Slot::Node(node))
        } else {
            children
        },
        TreeAction::RemoveChild { parent: p, child } => if p == parent && shape.is_under(
            child,
            parent,
        ) {
            children.remove(children.index_of(Slot::Node(child)))
        } else {
            children
        },
        TreeAction::Free { node } => if shape.is_under(node, parent) {
            children.remove(children.index_of(Slot::Node(node)))
        } else {
            children
        },
        TreeAction::AddPlaceholder { parent: p } => if p == parent {
            children.push(Slot::Placeholder)
        } else {
            children
        },
        TreeAction::MovePlaceholder { parent: p, position } => if p == parent && children.contains(
            Slot::Placeholder,
        ) {
            children.remove(children.index_of(Slot::Placeholder)).insert(
                position as int,
                Slot::Placeholder,
            )
        } else {
            children
        },
        TreeAction::ReplacePlaceholder { node } => if shape.placeholder == Some(parent)
            && !shape.has_parent(node) {
            if shape.accepts(parent, node) {
                children.update(children.index_of(Slot::Placeholder), Slot::Node(node))
            } else {
                children.remove(children.index_of(Slot::Placeholder))
            }
        } else {
            children
        },
        TreeAction::FreePlaceholder => if shape.placeholder == Some(parent) {
            children.remove(children.index_of(Slot::Placeholder))
        } else {
            children
        },
        _ => children,
    }
}

/// The children of `parent`, in order, once `actions` were performed in a tree of shape `shape`
/// where they were `children`.
pub open spec fn children_after(
    parent: NodeId,
    shape: TreeShape,
    children: Seq<Slot>,
    actions: Seq<TreeAction>,
) -> Seq<Slot>
    decreases actions.len(),
{
    if actions.len() == 0 {
        children
    } else {
        let before = actions.drop_last();
        children_step(
            parent,
            parents_after(shape, before),
            children_after(parent, shape, children, before),
            actions.last(),
        )
    }
}

/// The nodes that `actions` free, in order.
pub open spec fn freed_by(actions: Seq<TreeAction>) -> Seq<NodeId>
    decreases actions.len(),
{
    if actions.len() == 0 {
        Seq::empty()
    } else {
        let before = freed_by(actions.drop_last());
        match actions.last() {
            TreeAction::Free { node } => before.push(node),
            _ => before,
        }
    }
}

/// A signal of the scene manager.
pub enum Announcement {
    Pushed { scene: NodeId, index: u32 },
    Popped { scene: NodeId, index: u32 },
    Transitioning { scene: NodeId, index: u32 },
}

/// The signals that `actions` emit, in order.
pub open spec fn announced_by(actions: Seq<TreeAction>) -> Seq<Announcement>
    decreases actions.len(),
{
    if actions.len() == 0 {
        Seq::empty()
    } else {
        let before = announced_by(actions.drop_last());
        match actions.last() {
            TreeAction::EmitScenePushed { scene, index } => before.push(
                Announcement::Pushed { scene, index },
            ),
            TreeAction::EmitScenePopped { scene, index } => before.push(
                Announcement::Popped { scene, index },
            ),
            TreeAction::EmitSceneTransitioning { scene, index } => before.push(
                Announcement::Transitioning { scene, index },
            ),
            _ => before,
        }
    }
}

/// The scenes whose exit from the tree is watched, as often as it is, once `actions` were performed
/// where it was `watched`.
pub open spec fn watched_after(
    watched: Multiset<NodeId>,
    actions: Seq<TreeAction>,
) -> Multiset<NodeId>
    decreases actions.len(),
{
    if actions.len() == 0 {
        watched
    } else {
        let before = watched_after(watched, actions.drop_last());
        match actions.last() {
            TreeAction::ConnectTreeExiting { scene } => before.insert(scene),
            TreeAction::DisconnectTreeExiting { scene } => before.remove(scene),
            _ => before,
        }
    }
}

} // verus!
