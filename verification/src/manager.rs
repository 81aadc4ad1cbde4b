//! The scene stack and the rules by which scenes enter and leave it.
use vstd::prelude::*;

use crate::text::{decimal, decimal_text, enclose};
use crate::tree::{signal_index, to_signal_index, NodeId, NodeSnapshot, ProcessMode, TreeAction};

pub mod gd_api;
pub mod internal;
pub mod laws;
pub mod transition;

use internal::{register_scene, unregister_scene, StackData};

verus! {

/// Why a scene could not be pushed.
#[derive(Clone, Copy, Debug, PartialEq, Eq, Structural)]
pub enum PushSceneError {
    SceneAlreadyHasParent(NodeId),
}

/// Why a scene could not be inserted.
#[derive(Clone, Copy, Debug, PartialEq, Eq, Structural)]
pub enum InsertSceneError {
    IndexOutOfBounds(usize),
    SceneAlreadyHasParent(NodeId),
}

impl PushSceneError {
    /// The error in words, where the node that it names is shown as `node`.
    pub fn message(&self, node: &str) -> (text: String)
        ensures
            text@ == "scene ("@ + node@ + ") already has a parent node"@,
    {
        enclose("scene (", node, ") already has a parent node")
    }
}

impl InsertSceneError {
    /// The error in words, where the node that it names, if any, is shown as `node`.
    pub fn message(&self, node: &str) -> (text: String)
        ensures
            text@ == match *self {
                InsertSceneError::IndexOutOfBounds(index) => "index "@ + decimal(index as nat)
                    + " out of bounds"@,
                InsertSceneError::SceneAlreadyHasParent(_) => "scene ("@ + node@
                    + ") already has a parent node"@,
            },
    {
        match *self {
            InsertSceneError::IndexOutOfBounds(index) => {
                let number: String = decimal_text(index);
                enclose("index ", number.as_str(), " out of bounds")
            },
            InsertSceneError::SceneAlreadyHasParent(_) => {
                enclose("scene (", node, ") already has a parent node")
            },
        }
    }
}

impl From<PushSceneError> for InsertSceneError {
    fn from(value: PushSceneError) -> (error: Self) {
        match value {
            PushSceneError::SceneAlreadyHasParent(scene) => {
                InsertSceneError::SceneAlreadyHasParent(scene)
            },
        }
    }
}

impl vstd::std_specs::convert::FromSpecImpl<PushSceneError> for InsertSceneError {
    open spec fn obeys_from_spec() -> bool {
        true
    }

    open spec fn from_spec(value: PushSceneError) -> InsertSceneError {
        InsertSceneError::SceneAlreadyHasParent(value->SceneAlreadyHasParent_0)
    }
}

/// A stack of scenes, of which the last one runs and the others are paused.
#[derive(Debug)]
pub struct SceneManager {
    /// The root node of the scene.
    root: NodeId,
    /// The node to which scenes are added (which may be the same node as `root`).
    scene_parent: NodeId,
    scene_stack: Vec<StackData>,
}

/// What a [`SceneManager`] holds.
#[verifier::ext_equal]
pub struct ManagerState {
    pub root: NodeId,
    pub scene_parent: NodeId,
    /// The scenes, the topmost last.
    pub stack: Seq<StackData>,
}

impl View for SceneManager {
    type V = ManagerState;

    closed spec fn view(&self) -> ManagerState {
        ManagerState {
            root: self.root,
            scene_parent: self.scene_parent,
            stack: self.scene_stack@,
        }
    }
}

/// Whether `index` is the lowest place at which `scene` stands on the stack.
pub open spec fn is_index_of(stack: Seq<StackData>, scene: NodeId, index: int) -> bool {
    &&& 0 <= index < stack.len()
    &&& stack[index].scene == scene
    &&& forall|i: int| 0 <= i < index ==> (#[trigger] stack[i]).scene != scene
}

/// Whether `scene` stands on the stack.
pub open spec fn on_stack(stack: Seq<StackData>, scene: NodeId) -> bool {
    exists|i: int| 0 <= i < stack.len() && (#[trigger] stack[i]).scene == scene
}

impl ManagerState {
    /// Every entry of the stack is still registered.
    pub open spec fn well_formed(self) -> bool {
        forall|i: int| 0 <= i < self.stack.len() ==> (#[trigger] self.stack[i]).registered
    }

    /// The stack with its topmost scene marked as paused while it had process mode `mode`.
    pub open spec fn paused(self, mode: ProcessMode) -> Seq<StackData> {
        if self.stack.len() == 0 {
            self.stack
        } else {
            self.stack.update(self.stack.len() - 1, self.stack.last().remembering(mode))
        }
    }

    /// The process mode that `new` has once the topmost scene was paused.
    pub open spec fn mode_on_entry(self, new: NodeSnapshot) -> ProcessMode {
        if self.stack.len() > 0 && self.stack.last().scene == new.id {
            ProcessMode::Disabled
        } else {
            new.process_mode
        }
    }

    /// The state once `new` was pushed, where the topmost scene had process mode `top_mode`.
    pub open spec fn after_push(self, new: NodeSnapshot, top_mode: ProcessMode) -> ManagerState {
        ManagerState {
            stack: self.paused(top_mode).push(StackData::entry(new.id, self.mode_on_entry(new))),
            ..self
        }
    }

    /// What pushing `new` does to the tree. The scene below is paused first, and the push is
    /// announced once the new scene is in the tree.
    pub open spec fn push_actions(self, new: NodeId) -> Seq<TreeAction> {
        (if self.stack.len() == 0 {
            Seq::empty()
        } else {
            self.stack.last().pause_actions()
        }) + seq![
            TreeAction::ConnectTreeExiting { scene: new },
            TreeAction::AddChild { parent: self.scene_parent, child: new },
            TreeAction::EmitScenePushed { scene: new, index: signal_index(self.stack.len() as int) },
        ]
    }

    /// The state once `new` was inserted below the top, at `index`.
    pub open spec fn after_insert(self, index: int, new: NodeSnapshot) -> ManagerState {
        ManagerState {
            stack: self.stack.insert(index, StackData::entry(new.id, new.process_mode)),
            ..self
        }
    }

    /// What inserting `new` below the top, at `index`, does to the tree. The scene enters paused,
    /// as if others had been pushed on top of it.
    pub open spec fn insert_actions(self, index: int, new: NodeId) -> Seq<TreeAction> {
        seq![
            TreeAction::ConnectTreeExiting { scene: new },
            TreeAction::SetProcessMode { node: new, mode: ProcessMode::Disabled },
        ] + (if index == 0 {
            seq![
                TreeAction::AddPlaceholder { parent: self.scene_parent },
                TreeAction::MovePlaceholder { parent: self.scene_parent, position: 0 },
                TreeAction::ReplacePlaceholder { node: new },
                TreeAction::FreePlaceholder,
            ]
        } else {
            seq![TreeAction::AddSibling { sibling: self.stack[index - 1].scene, node: new }]
        })
    }

    /// The state once the scene at `index` was taken off the stack.
    pub open spec fn after_remove(self, index: int) -> ManagerState {
        ManagerState { stack: self.stack.remove(index), ..self }
    }

    /// What taking the scene at `index` off the stack does to the tree. Only where it was the
    /// topmost one, the scene below resumes and the removal is announced.
    pub open spec fn remove_actions(self, index: int) -> Seq<TreeAction> {
        let data = self.stack[index];
        let removed = data.unregister_actions().push(
            TreeAction::RemoveChild { parent: self.scene_parent, child: data.scene },
        );
        if index == self.stack.len() - 1 {
            removed + (if index == 0 {
                Seq::empty()
            } else {
                self.stack[index - 1].unpause_actions()
            }) + seq![
                TreeAction::EmitScenePopped { scene: data.scene, index: signal_index(index) },
            ]
        } else {
            removed
        }
    }
}

impl SceneManager {
    /// Makes a manager with an empty stack, whose scenes go under `scene_parent`, or under the
    /// root where none is given.
    pub fn new(root: NodeId, scene_parent: Option<NodeId>) -> (manager: Self)
        ensures
            manager@ == (ManagerState {
                root,
                scene_parent: match scene_parent {
                    Some(parent) => parent,
                    None => root,
                },
                stack: Seq::empty(),
            }),
            manager@.well_formed(),
    {
        SceneManager { root, scene_parent: scene_parent.unwrap_or(root), scene_stack: Vec::new() }
    }

    /// The topmost scene on the stack.
    pub fn current_scene(&self) -> (scene: Option<NodeId>)
        ensures
            scene == (if self@.stack.len() == 0 {
                None
            } else {
                Some(self@.stack.last().scene)
            }),
    {
        let len: usize = self.scene_stack.len();
        if len == 0 {
            None
        } else {
            Some(self.scene_stack[len - 1].scene())
        }
    }

    /// The node to which scenes are added.
    pub fn scene_parent(&self) -> (node: NodeId)
        ensures
            node == self@.scene_parent,
    {
        self.scene_parent
    }

    /// The root node of the scene.
    pub fn root(&self) -> (node: NodeId)
        ensures
            node == self@.root,
    {
        self.root
    }

    /// The number of scenes on the stack.
    pub fn len(&self) -> (len: usize)
        ensures
            len == self@.stack.len(),
    {
        self.scene_stack.len()
    }

    /// Whether there is no scene on the stack.
    pub fn is_empty(&self) -> (empty: bool)
        ensures
            empty == (self@.stack.len() == 0),
    {
        self.scene_stack.len() == 0
    }

    /// The lowest index at which a scene stands on the stack.
    pub fn index_of(&self, scene: NodeId) -> (index: Option<usize>)
        ensures
            match index {
                Some(i) => is_index_of(self@.stack, scene, i as int),
                None => !on_stack(self@.stack, scene),
            },
    {
        let mut i: usize = 0;
        while i < self.scene_stack.len()
            invariant
                i <= self@.stack.len(),
                self@.stack == self.scene_stack@,
                forall|j: int| 0 <= j < i ==> (#[trigger] self@.stack[j]).scene != scene,
            decreases self@.stack.len() - i,
        {
            if self.scene_stack[i].scene() == scene {
                return Some(i);
            }
            i += 1;
        }
        None
    }

    /// Pushes a new scene to the stack and gives its index back. `top_mode` is the process mode
    /// of the topmost scene, where there is one.
    ///
    /// Must only be used where it is safe to modify the scene tree.
    pub fn push_scene(
        &mut self,
        new: NodeSnapshot,
        top_mode: ProcessMode,
        actions: &mut Vec<TreeAction>,
    ) -> (pushed: Result<usize, PushSceneError>)
        ensures
            new.has_parent ==> {
                &&& pushed == Err::<usize, _>(PushSceneError::SceneAlreadyHasParent(new.id))
                &&& final(self)@ == old(self)@
                &&& final(actions)@ == old(actions)@
            },
            !new.has_parent ==> {
                &&& pushed matches Ok(index) && index == old(self)@.stack.len()
                &&& final(self)@ == old(self)@.after_push(new, top_mode)
                &&& final(actions)@ == old(actions)@ + old(self)@.push_actions(new.id)
            },
            old(self)@.well_formed() ==> final(self)@.well_formed(),
    {
        if new.has_parent {
            return Err(PushSceneError::SceneAlreadyHasParent(new.id));
        }
        let index: usize = self.scene_stack.len();
        let mut mode: ProcessMode = new.process_mode;
        if index > 0 {
            let mut top: StackData = self.scene_stack[index - 1];
            if top.scene() == new.id {
                mode = ProcessMode::Disabled;
            }
            top.pause(top_mode, actions);
            self.scene_stack[index - 1] = top;
        }
        let data: StackData = register_scene(new.id, mode, actions);
        self.scene_stack.push(data);
        actions.push(TreeAction::AddChild { parent: self.scene_parent, child: new.id });
        actions.push(
            TreeAction::EmitScenePushed { scene: new.id, index: to_signal_index(index) },
        );
        assert(final(self)@ =~= old(self)@.after_push(new, top_mode));
        assert(final(actions)@ =~= old(actions)@ + old(self)@.push_actions(new.id));
        Ok(index)
    }

    /// Takes the topmost scene off the stack.
    ///
    /// Must only be used where it is safe to modify the scene tree.
    #[must_use]
    pub fn pop_scene(&mut self, actions: &mut Vec<TreeAction>) -> (popped: Option<NodeId>)
        ensures
            old(self)@.stack.len() == 0 ==> {
                &&& popped is None
                &&& final(self)@ == old(self)@
                &&& final(actions)@ == old(actions)@
            },
            old(self)@.stack.len() > 0 ==> {
                let top = old(self)@.stack.len() - 1;
                &&& popped == Some(old(self)@.stack[top].scene)
                &&& final(self)@ == old(self)@.after_remove(top)
                &&& final(actions)@ == old(actions)@ + old(self)@.remove_actions(top)
            },
            old(self)@.well_formed() ==> final(self)@.well_formed(),
    {
        match self.scene_stack.pop() {
            None => None,
            Some(data) => {
                let index: usize = self.scene_stack.len();
                let scene: NodeId = unregister_scene(data, actions);
                actions.push(TreeAction::RemoveChild { parent: self.scene_parent, child: scene });
                if index > 0 {
                    self.scene_stack[index - 1].unpause(actions);
                }
                actions.push(
                    TreeAction::EmitScenePopped { scene, index: to_signal_index(index) },
                );
                assert(final(self)@ =~= old(self)@.after_remove(index as int));
                assert(final(actions)@ =~= old(actions)@ + old(self)@.remove_actions(index as int));
                Some(scene)
            },
        }
    }

    /// Inserts a scene that has no parent at the given index, shifting all scenes from there on to
    /// the right. `top_mode` is the process mode of the topmost scene, where there is one.
    ///
    /// Must only be used where it is safe to modify the scene tree.
    pub fn insert_scene(
        &mut self,
        index: usize,
        new: NodeSnapshot,
        top_mode: ProcessMode,
        actions: &mut Vec<TreeAction>,
    ) -> (inserted: Result<(), InsertSceneError>)
        ensures
            index > old(self)@.stack.len() ==> {
                &&& inserted == Err::<(), _>(InsertSceneError::IndexOutOfBounds(index))
                &&& final(self)@ == old(self)@
                &&& final(actions)@ == old(actions)@
            },
            index <= old(self)@.stack.len() && new.has_parent ==> {
                &&& inserted == Err::<(), _>(InsertSceneError::SceneAlreadyHasParent(new.id))
                &&& final(self)@ == old(self)@
                &&& final(actions)@ == old(actions)@
            },
            index == old(self)@.stack.len() && !new.has_parent ==> {
                &&& inserted is Ok
                &&& final(self)@ == old(self)@.after_push(new, top_mode)
                &&& final(actions)@ == old(actions)@ + old(self)@.push_actions(new.id)
            },
            index < old(self)@.stack.len() && !new.has_parent ==> {
                &&& inserted is Ok
                &&& final(self)@ == old(self)@.after_insert(index as int, new)
                &&& final(actions)@ == old(actions)@ + old(self)@.insert_actions(
                    index as int,
                    new.id,
                )
            },
            old(self)@.well_formed() ==> final(self)@.well_formed(),
    {
        let len: usize = self.scene_stack.len();
        if index > len {
            return Err(InsertSceneError::IndexOutOfBounds(index));
        }
        if index == len {
            // inserting at the top is the same as pushing
            return match self.push_scene(new, top_mode, actions) {
                Ok(_) => Ok(()),
                Err(error) => Err(InsertSceneError::from(error)),
            };
        }
        if new.has_parent {
            return Err(InsertSceneError::SceneAlreadyHasParent(new.id));
        }
        // the scene enters paused, to keep it consistent with a scene that was pushed normally
        let mut data: StackData = register_scene(new.id, new.process_mode, actions);
        data.pause(new.process_mode, actions);
        self.scene_stack.insert(index, data);
        if index == 0 {
            actions.push(TreeAction::AddPlaceholder { parent: self.scene_parent });
            actions.push(TreeAction::MovePlaceholder { parent: self.scene_parent, position: 0 });
            actions.push(TreeAction::ReplacePlaceholder { node: new.id });
            actions.push(TreeAction::FreePlaceholder);
        } else {
            self.scene_stack[index - 1].add_sibling(new.id, actions);
        }
        assert(final(self)@ =~= old(self)@.after_insert(index as int, new));
        assert(final(actions)@ =~= old(actions)@ + old(self)@.insert_actions(index as int, new.id));
        Ok(())
    }

    /// Takes the scene at the given index off the stack, or nothing where the index is out of
    /// bounds.
    ///
    /// Must only be used where it is safe to modify the scene tree.
    #[must_use]
    pub fn try_remove_scene_at(&mut self, index: usize, actions: &mut Vec<TreeAction>) -> (removed:
        Option<NodeId>)
        ensures
            index >= old(self)@.stack.len() ==> {
                &&& removed is None
                &&& final(self)@ == old(self)@
                &&& final(actions)@ == old(actions)@
            },
            index < old(self)@.stack.len() ==> {
                &&& removed == Some(old(self)@.stack[index as int].scene)
                &&& final(self)@ == old(self)@.after_remove(index as int)
                &&& final(actions)@ == old(actions)@ + old(self)@.remove_actions(index as int)
            },
            old(self)@.well_formed() ==> final(self)@.well_formed(),
    {
        let len: usize = self.scene_stack.len();
        if index >= len {
            return None;
        }
        if index == len - 1 {
            // removing the topmost scene is the same as popping
            return self.pop_scene(actions);
        }
        let data: StackData = self.scene_stack.remove(index);
        let scene: NodeId = unregister_scene(data, actions);
        actions.push(TreeAction::RemoveChild { parent: self.scene_parent, child: scene });
        assert(final(self)@ =~= old(self)@.after_remove(index as int));
        assert(final(actions)@ =~= old(actions)@ + old(self)@.remove_actions(index as int));
        Some(scene)
    }

    /// Takes a scene off the stack and gives it back with the index that it had, or nothing where
    /// it is not on the stack.
    ///
    /// Must only be used where it is safe to modify the scene tree.
    #[must_use]
    pub fn try_remove_scene(&mut self, scene: NodeId, actions: &mut Vec<TreeAction>) -> (removed:
        Option<(NodeId, usize)>)
        ensures
            match removed {
                Some((node, index)) => {
                    &&& node == scene
                    &&& is_index_of(old(self)@.stack, scene, index as int)
                    &&& final(self)@ == old(self)@.after_remove(index as int)
                    &&& final(actions)@ == old(actions)@ + old(self)@.remove_actions(index as int)
                },
                None => {
                    &&& !on_stack(old(self)@.stack, scene)
                    &&& final(self)@ == old(self)@
                    &&& final(actions)@ == old(actions)@
                },
            },
            old(self)@.well_formed() ==> final(self)@.well_formed(),
    {
        match self.index_of(scene) {
            None => None,
            Some(index) => match self.try_remove_scene_at(index, actions) {
                Some(node) => Some((node, index)),
                None => None,
            },
        }
    }

    /// Drops a scene that leaves the tree by other means than this manager. Gives back whether it
    /// was on the stack.
    pub fn scene_exiting_tree(&mut self, scene: NodeId, actions: &mut Vec<TreeAction>) -> (known:
        bool)
        ensures
            known == on_stack(old(self)@.stack, scene),
            known ==> exists|index: int|
                {
                    &&& #[trigger] is_index_of(old(self)@.stack, scene, index)
                    &&& final(self)@ == old(self)@.after_remove(index)
                    &&& final(actions)@ == old(actions)@
                        + old(self)@.stack[index].unregister_actions()
                },
            !known ==> final(self)@ == old(self)@ && final(actions)@ == old(actions)@,
            old(self)@.well_formed() ==> final(self)@.well_formed(),
    {
        match self.index_of(scene) {
            None => false,
            Some(index) => {
                let data: StackData = self.scene_stack.remove(index);
                let gone: NodeId = unregister_scene(data, actions);
                assert(gone == scene);
                assert(final(self)@ =~= old(self)@.after_remove(index as int));
                assert(is_index_of(old(self)@.stack, scene, index as int));
                true
            },
        }
    }
}

} // verus!
