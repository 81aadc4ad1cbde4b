//! What the operations of the scene stack do in the tree, to everything that can be seen there.
use vstd::multiset::Multiset;
use vstd::prelude::*;

use crate::manager::internal::StackData;
use crate::manager::ManagerState;
use crate::tree::{
    announced_by, children_after, freed_by, parents_after, signal_index, watched_after,
    Announcement, NodeId, Slot, TreeAction, TreeShape,
};

verus! {

/// Nothing is freed twice over by performing actions in two lists in place of one, and nothing is
/// announced or watched otherwise.
pub proof fn law_effects_concat(
    first: Seq<TreeAction>,
    second: Seq<TreeAction>,
    watched: Multiset<NodeId>,
)
    ensures
        freed_by(first + second) == freed_by(first) + freed_by(second),
        announced_by(first + second) == announced_by(first) + announced_by(second),
        watched_after(watched, first + second) == watched_after(
            watched_after(watched, first),
            second,
        ),
    decreases second.len(),
{
    if second.len() == 0 {
        assert(first + second =~= first);
        assert(freed_by(first) + freed_by(second) =~= freed_by(first));
        assert(announced_by(first) + announced_by(second) =~= announced_by(first));
    } else {
        let all = first + second;
        assert(all.drop_last() =~= first + second.drop_last());
        law_effects_concat(first, second.drop_last(), watched);
        assert(freed_by(all) =~= freed_by(first) + freed_by(second));
        assert(announced_by(all) =~= announced_by(first) + announced_by(second));
    }
}

/// A push frees nothing, is announced as what it is, and has the new scene watched.
pub proof fn law_push_effects(s: ManagerState, new: NodeId, watched: Multiset<NodeId>)
    ensures
        freed_by(s.push_actions(new)) == Seq::<NodeId>::empty(),
        announced_by(s.push_actions(new)) == seq![
            Announcement::Pushed { scene: new, index: signal_index(s.stack.len() as int) },
        ],
        watched_after(watched, s.push_actions(new)) == watched.insert(new),
{
    reveal_with_fuel(freed_by, 6);
    reveal_with_fuel(announced_by, 6);
    reveal_with_fuel(watched_after, 6);
}

/// An insertion below the top frees nothing, announces nothing, and has the new scene watched.
pub proof fn law_insert_effects(
    s: ManagerState,
    index: int,
    new: NodeId,
    watched: Multiset<NodeId>,
)
    ensures
        freed_by(s.insert_actions(index, new)) == Seq::<NodeId>::empty(),
        announced_by(s.insert_actions(index, new)) == Seq::<Announcement>::empty(),
        watched_after(watched, s.insert_actions(index, new)) == watched.insert(new),
{
    reveal_with_fuel(freed_by, 8);
    reveal_with_fuel(announced_by, 8);
    reveal_with_fuel(watched_after, 8);
}

/// Taking an entry out of service frees nothing, announces nothing, and ends one watch of its scene.
pub proof fn law_unregister_effects(data: StackData, watched: Multiset<NodeId>)
    ensures
        freed_by(data.unregister_actions()) == Seq::<NodeId>::empty(),
        announced_by(data.unregister_actions()) == Seq::<Announcement>::empty(),
        watched_after(watched, data.unregister_actions()) == watched.remove(data.scene),
{
    reveal_with_fuel(freed_by, 4);
    reveal_with_fuel(announced_by, 4);
    reveal_with_fuel(watched_after, 4);
}

/// A removal frees nothing, is announced where it takes the topmost scene and only then, and ends
/// one watch of the removed scene.
pub proof fn law_remove_effects(s: ManagerState, index: int, watched: Multiset<NodeId>)
    requires
        0 <= index < s.stack.len(),
    ensures
        freed_by(s.remove_actions(index)) == Seq::<NodeId>::empty(),
        announced_by(s.remove_actions(index)) == (if index == s.stack.len() - 1 {
            seq![
                Announcement::Popped { scene: s.stack[index].scene, index: signal_index(index) },
            ]
        } else {
            Seq::empty()
        }),
        watched_after(watched, s.remove_actions(index)) == watched.remove(s.stack[index].scene),
{
    reveal_with_fuel(freed_by, 7);
    reveal_with_fuel(announced_by, 7);
    reveal_with_fuel(watched_after, 7);
}

/// Whether the children of the scene parent are as told: `children` lists the nodes right under it,
/// each once, and there is no placeholder.
pub open spec fn children_are(s: ManagerState, shape: TreeShape, children: Seq<Slot>) -> bool {
    &&& children.no_duplicates()
    &&& shape.placeholder is None
    &&& !children.contains(Slot::Placeholder)
    &&& forall|node: NodeId| #[trigger]
        children.contains(Slot::Node(node)) <==> shape.is_under(node, s.scene_parent)
}

/// A push puts the new scene behind all other children of the scene parent.
pub proof fn law_push_children(
    s: ManagerState,
    new: NodeId,
    shape: TreeShape,
    children: Seq<Slot>,
)
    requires
        s.can_take(shape, new),
    ensures
        children_after(s.scene_parent, shape, children, s.push_actions(new)) == children.push(
            Slot::Node(new),
        ),
{
    reveal_with_fuel(children_after, 6);
    reveal_with_fuel(parents_after, 6);
}

/// An insertion at the bottom puts the new scene before all other children of the scene parent; one
/// further up puts it right behind the scene that is below it on the stack.
pub proof fn law_insert_children(
    s: ManagerState,
    index: int,
    new: NodeId,
    shape: TreeShape,
    children: Seq<Slot>,
    below: int,
)
    requires
        0 <= index < s.stack.len(),
        s.can_take(shape, new),
        s.scenes_in_tree(shape),
        children_are(s, shape, children),
        index > 0 ==> 0 <= below < children.len() && children[below] == Slot::Node(
            s.stack[index - 1].scene,
        ),
    ensures
        children_after(s.scene_parent, shape, children, s.insert_actions(index, new))
            == children.insert(
            if index == 0 {
                0
            } else {
                below + 1
            },
            Slot::Node(new),
        ),
{
    reveal_with_fuel(children_after, 8);
    reveal_with_fuel(parents_after, 8);
    if index == 0 {
        let added = children.push(Slot::Placeholder);
        assert(added[children.len() as int] == Slot::Placeholder);
        assert(added.contains(Slot::Placeholder));
        let at = added.index_of(Slot::Placeholder);
        assert(at == children.len()) by {
            if at < children.len() {
                assert(children[at] == Slot::Placeholder);
            }
        }
        assert(added.remove(at) =~= children);
        let moved = children.insert(0, Slot::Placeholder);
        assert(moved[0] == Slot::Placeholder);
        let front = moved.index_of(Slot::Placeholder);
        assert(front == 0) by {
            if front > 0 {
                assert(children[front - 1] == Slot::Placeholder);
            }
        }
        assert(moved.update(0, Slot::Node(new)) =~= children.insert(0, Slot::Node(new)));
    } else {
        let sibling = Slot::Node(s.stack[index - 1].scene);
        assert(children.contains(sibling));
        assert(children.index_of(sibling) == below);
    }
}

/// A removal takes the removed scene out of the children of the scene parent, and no other.
pub proof fn law_remove_children(
    s: ManagerState,
    index: int,
    shape: TreeShape,
    children: Seq<Slot>,
    place: int,
)
    requires
        0 <= index < s.stack.len(),
        s.scenes_in_tree(shape),
        children_are(s, shape, children),
        0 <= place < children.len() && children[place] == Slot::Node(s.stack[index].scene),
    ensures
        children_after(s.scene_parent, shape, children, s.remove_actions(index))
            == children.remove(place),
{
    reveal_with_fuel(children_after, 7);
    reveal_with_fuel(parents_after, 7);
    let slot = Slot::Node(s.stack[index].scene);
    assert(children.contains(slot));
    assert(children.index_of(slot) == place);
}

} // verus!
