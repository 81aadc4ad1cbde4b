//! The entries of the scene stack.
use vstd::prelude::*;

use crate::tree::{NodeId, ProcessMode, TreeAction};

verus! {

/// A scene on the stack.
#[derive(Clone, Copy, Debug, PartialEq, Eq, Structural)]
pub struct StackData {
    /// The scene.
    pub scene: NodeId,
    /// The scene's process mode as it was before it got paused by a higher scene.
    pub initial_process_mode: ProcessMode,
    /// Whether this entry has yet to be unregistered.
    pub registered: bool,
}

impl StackData {
    /// The entry of a scene that enters the stack with process mode `mode`.
    pub open spec fn entry(scene: NodeId, mode: ProcessMode) -> StackData {
        StackData { scene, initial_process_mode: mode, registered: true }
    }

    /// This entry, with `mode` as the process mode to go back to.
    pub open spec fn remembering(self, mode: ProcessMode) -> StackData {
        StackData { initial_process_mode: mode, ..self }
    }

    /// What pausing this entry's scene does to the tree.
    pub open spec fn pause_actions(self) -> Seq<TreeAction> {
        seq![TreeAction::SetProcessMode { node: self.scene, mode: ProcessMode::Disabled }]
    }

    /// What resuming this entry's scene does to the tree.
    pub open spec fn unpause_actions(self) -> Seq<TreeAction> {
        seq![TreeAction::SetProcessMode { node: self.scene, mode: self.initial_process_mode }]
    }

    /// What unregistering this entry does to the tree: its scene gets its process mode back, and
    /// its exit from the tree is not watched any more.
    pub open spec fn unregister_actions(self) -> Seq<TreeAction> {
        self.unpause_actions().push(TreeAction::DisconnectTreeExiting { scene: self.scene })
    }

    /// Makes the entry of a scene that has process mode `mode`.
    pub fn new(scene: NodeId, mode: ProcessMode) -> (data: Self)
        ensures
            data == Self::entry(scene, mode),
    {
        StackData { scene, initial_process_mode: mode, registered: true }
    }

    /// The scene of this entry.
    pub fn scene(&self) -> (scene: NodeId)
        ensures
            scene == self.scene,
    {
        self.scene
    }

    /// Puts `sibling` behind this entry's scene in the tree.
    pub fn add_sibling(&self, sibling: NodeId, actions: &mut Vec<TreeAction>)
        ensures
            final(actions)@ == old(actions)@.push(
                TreeAction::AddSibling { sibling: self.scene, node: sibling },
            ),
    {
        actions.push(TreeAction::AddSibling { sibling: self.scene, node: sibling });
    }

    /// Pauses the scene, which has process mode `current` now.
    pub fn pause(&mut self, current: ProcessMode, actions: &mut Vec<TreeAction>)
        ensures
            *final(self) == old(self).remembering(current),
            final(actions)@ == old(actions)@ + old(self).pause_actions(),
    {
        self.initial_process_mode = current;
        actions.push(
            TreeAction::SetProcessMode { node: self.scene, mode: ProcessMode::Disabled },
        );
    }

    /// Gives the scene back the process mode that it had before it was paused.
    pub fn unpause(&self, actions: &mut Vec<TreeAction>)
        ensures
            final(actions)@ == old(actions)@ + self.unpause_actions(),
    {
        actions.push(
            TreeAction::SetProcessMode { node: self.scene, mode: self.initial_process_mode },
        );
    }

    /// Lets go of the entry and of its connection to the tree. Gives back whether the entry was
    /// let go of without being unregistered, which is an error of the caller.
    pub fn release(self, actions: &mut Vec<TreeAction>) -> (leaked: bool)
        ensures
            leaked == self.registered,
            final(actions)@ == old(actions)@.push(
                TreeAction::DisconnectTreeExiting { scene: self.scene },
            ),
    {
        actions.push(TreeAction::DisconnectTreeExiting { scene: self.scene });
        self.registered
    }
}

/// Starts watching a scene that has process mode `mode`, and makes its entry.
pub fn register_scene(scene: NodeId, mode: ProcessMode, actions: &mut Vec<TreeAction>) -> (data:
    StackData)
    ensures
        data == StackData::entry(scene, mode),
        final(actions)@ == old(actions)@.push(TreeAction::ConnectTreeExiting { scene }),
{
    actions.push(TreeAction::ConnectTreeExiting { scene });
    StackData::new(scene, mode)
}

/// Takes an entry out of service and gives its scene back.
pub fn unregister_scene(data: StackData, actions: &mut Vec<TreeAction>) -> (scene: NodeId)
    ensures
        scene == data.scene,
        final(actions)@ == old(actions)@ + data.unregister_actions(),
{
    let mut data: StackData = data;
    data.registered = false;
    data.unpause(actions);
    let scene: NodeId = data.scene;
    let leaked: bool = data.release(actions);
    assert(!leaked);
    scene
}

} // verus!
