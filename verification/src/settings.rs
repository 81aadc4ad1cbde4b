//! The project settings of the scene manager.
use vstd::prelude::*;

verus! {

/// The type of a setting's value.
#[derive(Clone, Copy, Debug, PartialEq, Eq, Structural)]
pub enum SettingType {
    Name,
}

/// How the editor offers a setting.
#[derive(Clone, Copy, Debug, PartialEq, Eq, Structural)]
pub enum PropertyHint {
    File,
}

/// The definition of a setting.
#[derive(Debug)]
pub struct SettingDef {
    pub key: String,
    pub default_value: String,
    pub ty: SettingType,
    pub hint: PropertyHint,
    pub hint_string: String,
    pub is_advanced: bool,
    pub is_internal: bool,
}

/// What the editor is told of a setting.
#[derive(Debug)]
pub struct SettingHint {
    pub name: String,
    pub value: String,
    pub ty: SettingType,
    pub hint: PropertyHint,
    pub hint_string: String,
}

/// One change to the project settings.
#[derive(Debug)]
pub enum SettingAction {
    SetSetting { name: String, value: String },
    SetInitialValue { name: String, value: String },
    AddPropertyInfo { info: SettingHint },
    SetAsBasic { name: String, basic: bool },
    SetAsInternal { name: String, internal: bool },
}

/// The name under which the project settings know a setting of the scene manager.
pub open spec fn full_name(key: Seq<char>) -> Seq<char> {
    "scene_manager/"@ + key
}

/// The name under which the project settings know a setting of the scene manager.
pub fn setting_name(key: &str) -> (name: String)
    ensures
        name@ == full_name(key@),
{
    let mut name: String = "scene_manager/".to_owned();
    name.append(key);
    name
}

impl SettingHint {
    /// Whether this tells of `def` under the name `name`.
    pub open spec fn describes(self, def: SettingDef, name: Seq<char>) -> bool {
        &&& self.name@ == name
        &&& self.value@ == def.default_value@
        &&& self.ty == def.ty
        &&& self.hint == def.hint
        &&& self.hint_string@ == def.hint_string@
    }
}

impl SettingDef {
    /// What the editor is told of this setting under the name `name`.
    pub fn to_hint(&self, name: &String) -> (hint: SettingHint)
        ensures
            hint.describes(*self, name@),
    {
        SettingHint {
            name: name.clone(),
            value: self.default_value.clone(),
            ty: self.ty,
            hint: self.hint,
            hint_string: self.hint_string.clone(),
        }
    }
}

/// Whether `defs` are the settings of the scene manager: the root scene, and no other.
pub open spec fn are_definitions(defs: Seq<SettingDef>) -> bool {
    &&& defs.len() == 1
    &&& defs[0].key@ == "runtime/root_scene"@
    &&& defs[0].default_value@ == ""@
    &&& defs[0].ty == SettingType::Name
    &&& defs[0].hint == PropertyHint::File
    &&& defs[0].hint_string@ == "PackedScene"@
    &&& !defs[0].is_advanced
    &&& !defs[0].is_internal
}

/// The settings of the scene manager.
pub fn definitions() -> (defs: Vec<SettingDef>)
    ensures
        are_definitions(defs@),
{
    let mut defs: Vec<SettingDef> = Vec::new();
    defs.push(
        SettingDef {
            key: "runtime/root_scene".to_owned(),
            default_value: "".to_owned(),
            ty: SettingType::Name,
            hint: PropertyHint::File,
            hint_string: "PackedScene".to_owned(),
            is_advanced: false,
            is_internal: false,
        },
    );
    defs
}

/// Whether `actions` set up `def` in project settings that hold it already or not: it gets its
/// default value where it is missing, and then its initial value, its description and its
/// visibility.
pub open spec fn sets_up(actions: Seq<SettingAction>, def: SettingDef, present: bool) -> bool {
    let name = full_name(def.key@);
    let first: int = if present {
        0
    } else {
        1
    };
    &&& actions.len() == first + 4
    &&& !present ==> (actions[0] matches SettingAction::SetSetting { name: n, value } && n@ == name
        && value@ == def.default_value@)
    &&& actions[first] matches SettingAction::SetInitialValue { name: n, value } && n@ == name
        && value@ == def.default_value@
    &&& actions[first + 1] matches SettingAction::AddPropertyInfo { info } && info.describes(
        def,
        name,
    )
    &&& actions[first + 2] matches SettingAction::SetAsBasic { name: n, basic } && n@ == name
        && basic == !def.is_advanced
    &&& actions[first + 3] matches SettingAction::SetAsInternal { name: n, internal } && n@ == name
        && internal == def.is_internal
}

/// Sets up one setting in project settings that hold it already or not.
pub fn prepare_setting(def: &SettingDef, present: bool) -> (actions: Vec<SettingAction>)
    ensures
        sets_up(actions@, *def, present),
{
    let mut actions: Vec<SettingAction> = Vec::new();
    let name: String = setting_name(def.key.as_str());
    if !present {
        actions.push(
            SettingAction::SetSetting { name: name.clone(), value: def.default_value.clone() },
        );
    }
    actions.push(
        SettingAction::SetInitialValue { name: name.clone(), value: def.default_value.clone() },
    );
    actions.push(SettingAction::AddPropertyInfo { info: def.to_hint(&name) });
    actions.push(SettingAction::SetAsBasic { name: name.clone(), basic: !def.is_advanced });
    actions.push(SettingAction::SetAsInternal { name, internal: def.is_internal });
    actions
}

/// The actions of several lists, one list after the other.
pub open spec fn flattened(lists: Seq<Seq<SettingAction>>) -> Seq<SettingAction>
    decreases lists.len(),
{
    if lists.len() == 0 {
        Seq::empty()
    } else {
        flattened(lists.drop_last()) + lists.last()
    }
}

/// Sets up the settings `defs`, one after the other. `present` says which of them the project
/// settings hold already, where one that it does not speak of counts as missing.
pub fn prepare_all(defs: &Vec<SettingDef>, present: &Vec<bool>) -> (actions: Vec<SettingAction>)
    ensures
        exists|parts: Seq<Seq<SettingAction>>|
            {
                &&& parts.len() == defs@.len()
                &&& #[trigger] flattened(parts) == actions@
                &&& forall|i: int|
                    0 <= i < defs@.len() ==> sets_up(
                        #[trigger] parts[i],
                        defs@[i],
                        i < present@.len() && present@[i],
                    )
            },
{
    let mut actions: Vec<SettingAction> = Vec::new();
    let ghost mut parts: Seq<Seq<SettingAction>> = Seq::empty();
    let mut i: usize = 0;
    while i < defs.len()
        invariant
            i <= defs@.len(),
            parts.len() == i,
            flattened(parts) == actions@,
            forall|j: int|
                0 <= j < i ==> sets_up(
                    #[trigger] parts[j],
                    defs@[j],
                    j < present@.len() && present@[j],
                ),
        decreases defs@.len() - i,
    {
        let here: bool = i < present.len() && present[i];
        let mut part: Vec<SettingAction> = prepare_setting(&defs[i], here);
        proof {
            let longer = parts.push(part@);
            assert(longer.drop_last() =~= parts);
            parts = longer;
        }
        actions.append(&mut part);
        i += 1;
    }
    actions
}

/// Sets up the settings of the scene manager. `present` says whether the project settings hold the
/// root scene already.
pub fn prepare(present: bool) -> (actions: Vec<SettingAction>)
    ensures
        exists|defs: Seq<SettingDef>| #[trigger]
            are_definitions(defs) && sets_up(actions@, defs[0], present),
{
    let defs: Vec<SettingDef> = definitions();
    let mut flags: Vec<bool> = Vec::new();
    flags.push(present);
    let actions: Vec<SettingAction> = prepare_all(&defs, &flags);
    proof {
        let parts = choose|parts: Seq<Seq<SettingAction>>|
            {
                &&& parts.len() == defs@.len()
                &&& #[trigger] flattened(parts) == actions@
                &&& forall|i: int|
                    0 <= i < defs@.len() ==> sets_up(
                        #[trigger] parts[i],
                        defs@[i],
                        i < flags@.len() && flags@[i],
                    )
            };
        assert(parts.drop_last() =~= Seq::empty());
        assert(flattened(parts) == flattened(parts.drop_last()) + parts.last());
        assert(flattened(parts.drop_last()) == Seq::<SettingAction>::empty());
        assert(actions@ =~= parts[0]);
        assert(sets_up(parts[0], defs@[0], present));
        assert(are_definitions(defs@));
    }
    actions
}

/// The value of a setting, if it exists. `has` says whether the project settings hold a full name,
/// and `read` reads what they hold for it, which is asked only where they do.
pub fn get<Value, Has: FnOnce(String) -> bool, Read: FnOnce(String) -> Value>(
    path: &str,
    has: Has,
    read: Read,
) -> (value: Option<Value>)
    requires
        forall|name: String| #[trigger] call_requires(has, (name,)),
        forall|name: String| #[trigger] call_requires(read, (name,)),
    ensures
        exists|name: String, present: bool|
            {
                &&& name@ == full_name(path@)
                &&& #[trigger] call_ensures(has, (name,), present)
                &&& present == value is Some
            },
        value is Some ==> exists|name: String, stored: Value|
            {
                &&& name@ == full_name(path@)
                &&& #[trigger] call_ensures(read, (name,), stored)
                &&& value == Some(stored)
            },
{
    if has(setting_name(path)) {
        Some(read(setting_name(path)))
    } else {
        None
    }
}

/// The settings as scripts read them.
#[derive(Clone, Copy, Debug, PartialEq, Eq, Structural)]
pub struct SceneManagerSettings {}

impl SceneManagerSettings {
    /// The value of a setting, or `default` where it does not exist. `has` says whether the project
    /// settings hold a full name, and `read` reads what they hold for it, which is asked only where
    /// they do.
    pub fn get_setting<Value, Has: FnOnce(String) -> bool, Read: FnOnce(String) -> Value>(
        path: &str,
        default: Value,
        has: Has,
        read: Read,
    ) -> (value: Value)
        requires
            forall|name: String| #[trigger] call_requires(has, (name,)),
            forall|name: String| #[trigger] call_requires(read, (name,)),
        ensures
            exists|name: String, present: bool|
                {
                    &&& name@ == full_name(path@)
                    &&& #[trigger] call_ensures(has, (name,), present)
                    &&& !present ==> value == default
                    &&& present ==> exists|asked: String|
                        asked@ == full_name(path@) && #[trigger] call_ensures(read, (asked,), value)
                },
    {
        match get(path, has, read) {
            Some(stored) => stored,
            None => default,
        }
    }

    /// Whether a setting exists. `has` says whether the project settings hold a full name.
    pub fn has_setting<Has: FnOnce(String) -> bool>(path: &str, has: Has) -> (exists_there: bool)
        requires
            forall|name: String| #[trigger] call_requires(has, (name,)),
        ensures
            exists|name: String| name@ == full_name(path@) && #[trigger] call_ensures(
                has,
                (name,),
                exists_there,
            ),
    {
        has(setting_name(path))
    }
}

/// The settings that the project settings hold once `actions` were performed where they held
/// `store`.
pub open spec fn store_after(
    store: Map<Seq<char>, Seq<char>>,
    actions: Seq<SettingAction>,
) -> Map<Seq<char>, Seq<char>>
    decreases actions.len(),
{
    if actions.len() == 0 {
        store
    } else {
        let before = store_after(store, actions.drop_last());
        match actions.last() {
            SettingAction::SetSetting { name, value } => before.insert(name@, value@),
            _ => before,
        }
    }
}

/// Actions that set no value leave the values as they are.
proof fn lemma_store_kept(
    store: Map<Seq<char>, Seq<char>>,
    first: Seq<SettingAction>,
    second: Seq<SettingAction>,
)
    requires
        forall|i: int| 0 <= i < second.len() ==> !((#[trigger] second[i]) is SetSetting),
    ensures
        store_after(store, first + second) == store_after(store, first),
    decreases second.len(),
{
    if second.len() == 0 {
        assert(first + second =~= first);
    } else {
        assert((first + second).drop_last() =~= first + second.drop_last());
        lemma_store_kept(store, first, second.drop_last());
    }
}

/// Setting up a setting never changes a value that is there, and gives the setting its default
/// value where it was missing.
pub proof fn law_prepare_keeps_values(
    store: Map<Seq<char>, Seq<char>>,
    actions: Seq<SettingAction>,
    def: SettingDef,
)
    requires
        sets_up(actions, def, store.dom().contains(full_name(def.key@))),
    ensures
        store_after(store, actions) == if store.dom().contains(full_name(def.key@)) {
            store
        } else {
            store.insert(full_name(def.key@), def.default_value@)
        },
{
    let empty = Seq::<SettingAction>::empty();
    assert(store_after(store, empty) == store);
    if store.dom().contains(full_name(def.key@)) {
        assert(actions =~= empty + actions);
        lemma_store_kept(store, empty, actions);
    } else {
        let set = seq![actions[0]];
        let rest = actions.skip(1);
        assert(actions =~= set + rest);
        lemma_store_kept(store, set, rest);
        assert(set.drop_last() =~= empty);
    }
}

/// Setting up a setting twice is the same as setting it up once: the second time sets no value.
pub proof fn law_prepare_twice(
    store: Map<Seq<char>, Seq<char>>,
    first: Seq<SettingAction>,
    second: Seq<SettingAction>,
    def: SettingDef,
)
    requires
        sets_up(first, def, store.dom().contains(full_name(def.key@))),
        sets_up(
            second,
            def,
            store_after(store, first).dom().contains(full_name(def.key@)),
        ),
    ensures
        store_after(store, first).dom().contains(full_name(def.key@)),
        store_after(store_after(store, first), second) == store_after(store, first),
{
    law_prepare_keeps_values(store, first, def);
    law_prepare_keeps_values(store_after(store, first), second, def);
}

} // verus!
