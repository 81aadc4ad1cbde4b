//! The editor plugin.
use vstd::prelude::*;

use crate::settings::{are_definitions, prepare, sets_up, SettingAction, SettingDef};

verus! {

/// The plugin that sets up the project settings in the editor.
#[derive(Clone, Copy, Debug, PartialEq, Eq, Structural)]
pub struct SceneManagerPlugin {}

impl SceneManagerPlugin {
    /// What to do as the plugin enters the tree: in the editor, the settings are set up; in the
    /// game, nothing is. `present` says whether the project settings hold the root scene already.
    pub fn enter_tree(&self, in_editor: bool, present: bool) -> (actions: Vec<SettingAction>)
        ensures
            !in_editor ==> actions@.len() == 0,
            in_editor ==> exists|defs: Seq<SettingDef>| #[trigger]
                are_definitions(defs) && sets_up(actions@, defs[0], present),
    {
        if !in_editor {
            return Vec::new();
        }
        prepare(present)
    }
}

} // verus!
