//! What the project settings are told, and by which names they are read.
use vstd::prelude::*;

use crate::plugin::SceneManagerPlugin;
use crate::settings::{
    definitions, flattened, get, prepare, prepare_all, prepare_setting, setting_name, PropertyHint,
    SceneManagerSettings, SettingAction, SettingDef, SettingHint, SettingType,
};

verus! {

/// What an action says, by the letters.
pub enum Change {
    Value { name: Seq<char>, value: Seq<char> },
    Initial { name: Seq<char>, value: Seq<char> },
    Info {
        name: Seq<char>,
        value: Seq<char>,
        ty: SettingType,
        hint: PropertyHint,
        hint_string: Seq<char>,
    },
    Basic { name: Seq<char>, basic: bool },
    Internal { name: Seq<char>, internal: bool },
}

/// What an action says, by the letters.
pub open spec fn change(action: SettingAction) -> Change {
    match action {
        SettingAction::SetSetting { name, value } => Change::Value { name: name@, value: value@ },
        SettingAction::SetInitialValue { name, value } => Change::Initial {
            name: name@,
            value: value@,
        },
        SettingAction::AddPropertyInfo { info } => Change::Info {
            name: info.name@,
            value: info.value@,
            ty: info.ty,
            hint: info.hint,
            hint_string: info.hint_string@,
        },
        SettingAction::SetAsBasic { name, basic } => Change::Basic { name: name@, basic },
        SettingAction::SetAsInternal { name, internal } => Change::Internal {
            name: name@,
            internal,
        },
    }
}

/// Whether the last four of `actions` set up `def`: under its full name, with its default value as
/// the initial one, with its own description, basic unless it is advanced, and internal if and only
/// if it is. Before these stands, if the setting was not there, that it gets its default value, and
/// nothing if it was.
pub open spec fn prepares(actions: Seq<SettingAction>, def: SettingDef, present: bool) -> bool {
    let name = "scene_manager/"@ + def.key@;
    let n = actions.len() as int;
    &&& present ==> n == 4
    &&& !present ==> n == 5 && change(actions[0]) == (Change::Value {
        name,
        value: def.default_value@,
    })
    &&& change(actions[n - 4]) == (Change::Initial { name, value: def.default_value@ })
    &&& change(actions[n - 3]) == (Change::Info {
        name,
        value: def.default_value@,
        ty: def.ty,
        hint: def.hint,
        hint_string: def.hint_string@,
    })
    &&& change(actions[n - 2]) == (Change::Basic { name, basic: !def.is_advanced })
    &&& change(actions[n - 1]) == (Change::Internal { name, internal: def.is_internal })
}

/// A setting is set up as its definition says, whether it was there or not.
pub proof fn law_prepare_setting(def: &SettingDef, present: bool, actions: Vec<SettingAction>)
    requires
        call_ensures(prepare_setting, (def, present), actions),
    ensures
        prepares(actions@, *def, present),
        ({
            let name = "scene_manager/"@ + def.key@;
            let n = actions@.len() as int;
            &&& change(actions@[n - 1]) == (Change::Internal { name, internal: def.is_internal })
            &&& change(actions@[n - 2]) == (Change::Basic { name, basic: !def.is_advanced })
            &&& change(actions@[n - 4]) == (Change::Initial { name, value: def.default_value@ })
            &&& change(actions@[0]) is Value <==> !present
        }),
{
}

/// Whether a setting was there decides nothing but whether it gets its default value: where it was,
/// the same is asked for as where it was not, but for the first thing.
pub proof fn law_presence_decides_the_value_alone(
    def: &SettingDef,
    there: Vec<SettingAction>,
    missing: Vec<SettingAction>,
    i: int,
)
    requires
        call_ensures(prepare_setting, (def, true), there),
        call_ensures(prepare_setting, (def, false), missing),
        0 <= i < there@.len(),
    ensures
        missing@.len() == there@.len() + 1,
        change(missing@[0]) is Value,
        change(there@[i]) == change(missing@[i + 1]),
        !(change(there@[i]) is Value),
{
    law_prepare_setting(def, true, there);
    law_prepare_setting(def, false, missing);
}

/// Whether `def` is the root scene: a name, empty at first, that the editor offers as a packed scene
/// file, neither advanced nor internal.
pub open spec fn is_root_scene(def: SettingDef) -> bool {
    &&& def.key@ == "runtime/root_scene"@
    &&& def.default_value@ == ""@
    &&& def.ty is Name
    &&& def.hint is File
    &&& def.hint_string@ == "PackedScene"@
    &&& !def.is_advanced
    &&& !def.is_internal
}

/// The one setting of the scene manager is the root scene.
pub proof fn law_definitions(defs: Vec<SettingDef>)
    requires
        call_ensures(definitions, (), defs),
    ensures
        defs@.len() == 1,
        is_root_scene(defs@[0]),
{
}

/// Whether `actions` set up the root scene: it stays basic and visible, and its value is set only
/// where it has none.
pub open spec fn prepares_root_scene(actions: Seq<SettingAction>, present: bool) -> bool {
    let name = "scene_manager/"@ + "runtime/root_scene"@;
    let n = actions.len() as int;
    &&& present ==> n == 4
    &&& !present ==> n == 5 && change(actions[0]) == (Change::Value { name, value: ""@ })
    &&& change(actions[n - 4]) == (Change::Initial { name, value: ""@ })
    &&& change(actions[n - 3]) == (Change::Info {
        name,
        value: ""@,
        ty: SettingType::Name,
        hint: PropertyHint::File,
        hint_string: "PackedScene"@,
    })
    &&& change(actions[n - 2]) == (Change::Basic { name, basic: true })
    &&& change(actions[n - 1]) == (Change::Internal { name, internal: false })
}

/// The scene manager sets up the root scene; its plugin does so in the editor, and does nothing in
/// the game.
pub proof fn law_prepare(
    present: bool,
    actions: Vec<SettingAction>,
    plugin: &SceneManagerPlugin,
    in_editor: bool,
    entering: Vec<SettingAction>,
)
    requires
        call_ensures(prepare, (present,), actions),
        call_ensures(SceneManagerPlugin::enter_tree, (plugin, in_editor, present), entering),
    ensures
        prepares_root_scene(actions@, present),
        in_editor ==> prepares_root_scene(entering@, present),
        !in_editor ==> entering@.len() == 0,
        change(actions@.last()) == (Change::Internal {
            name: "scene_manager/"@ + "runtime/root_scene"@,
            internal: false,
        }),
        in_editor ==> entering@.len() == actions@.len() && forall|i: int|
            0 <= i < actions@.len() ==> change(#[trigger] entering@[i]) == change(actions@[i]),
{
}

/// Several settings are set up one after the other, each as its definition says; one that nothing is
/// known of counts as missing.
pub proof fn law_prepare_all(
    defs: &Vec<SettingDef>,
    present: &Vec<bool>,
    actions: Vec<SettingAction>,
)
    requires
        call_ensures(prepare_all, (defs, present), actions),
    ensures
        exists|parts: Seq<Seq<SettingAction>>|
            {
                &&& parts.len() == defs@.len()
                &&& #[trigger] flattened(parts) == actions@
                &&& forall|i: int|
                    0 <= i < parts.len() ==> prepares(
                        #[trigger] parts[i],
                        defs@[i],
                        i < present@.len() && present@[i],
                    )
            },
{
    let parts = choose|parts: Seq<Seq<SettingAction>>|
        {
            &&& parts.len() == defs@.len()
            &&& #[trigger] flattened(parts) == actions@
            &&& forall|i: int|
                0 <= i < defs@.len() ==> crate::settings::sets_up(
                    #[trigger] parts[i],
                    defs@[i],
                    i < present@.len() && present@[i],
                )
        };
    assert forall|i: int| 0 <= i < parts.len() implies prepares(
        #[trigger] parts[i],
        defs@[i],
        i < present@.len() && present@[i],
    ) by {
        assert(crate::settings::sets_up(
            parts[i],
            defs@[i],
            i < present@.len() && present@[i],
        ));
    }
    assert(flattened(parts) == actions@);
}

/// Lists of actions are put one behind the other, in order.
pub proof fn law_flattened(parts: Seq<Seq<SettingAction>>, part: Seq<SettingAction>)
    ensures
        flattened(Seq::empty()) == Seq::<SettingAction>::empty(),
        flattened(parts.push(part)) == flattened(parts) + part,
{
    assert(parts.push(part).drop_last() =~= parts);
}

/// A setting goes by its key behind the prefix of the scene manager, and the editor is told of it
/// what its definition says.
pub proof fn law_names(key: &str, name: String, def: &SettingDef, shown: &String, hint: SettingHint)
    requires
        call_ensures(setting_name, (key,), name),
        call_ensures(SettingDef::to_hint, (def, shown), hint),
    ensures
        name@ == "scene_manager/"@ + key@,
        hint.name@ == shown@,
        hint.value@ == def.default_value@,
        hint.ty == def.ty,
        hint.hint == def.hint,
        hint.hint_string@ == def.hint_string@,
{
}

/// A setting is looked up, and read, by its full name. There is a value if and only if it was found,
/// and it is what was read; where there is none, the default takes its place.
pub proof fn law_get<Value, Has: FnOnce(String) -> bool, Read: FnOnce(String) -> Value>(
    path: &str,
    has: Has,
    read: Read,
    default: Value,
    value: Option<Value>,
    or_default: Value,
    there: bool,
)
    requires
        call_ensures(get::<Value, Has, Read>, (path, has, read), value),
        call_ensures(
            SceneManagerSettings::get_setting::<Value, Has, Read>,
            (path, default, has, read),
            or_default,
        ),
        call_ensures(SceneManagerSettings::has_setting::<Has>, (path, has), there),
    ensures
        exists|name: String, found: bool|
            {
                &&& name@ == "scene_manager/"@ + path@
                &&& #[trigger] call_ensures(has, (name,), found)
                &&& found == value is Some
            },
        value is Some ==> exists|name: String, stored: Value|
            {
                &&& name@ == "scene_manager/"@ + path@
                &&& #[trigger] call_ensures(read, (name,), stored)
                &&& value == Some(stored)
            },
        exists|name: String, found: bool|
            {
                &&& name@ == "scene_manager/"@ + path@
                &&& #[trigger] call_ensures(has, (name,), found)
                &&& !found ==> or_default == default
                &&& found ==> exists|asked: String|
                    asked@ == "scene_manager/"@ + path@ && #[trigger] call_ensures(
                        read,
                        (asked,),
                        or_default,
                    )
            },
        exists|name: String|
            name@ == "scene_manager/"@ + path@ && #[trigger] call_ensures(has, (name,), there),
{
}

} // verus!
