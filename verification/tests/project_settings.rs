use scene_manager::plugin::SceneManagerPlugin;
use scene_manager::settings::{
    definitions, get, prepare, prepare_all, prepare_setting, setting_name, PropertyHint,
    SceneManagerSettings, SettingAction, SettingType,
};

const ROOT_SCENE: &str = "scene_manager/runtime/root_scene";

#[test]
fn names_carry_the_prefix() {
    assert_eq!(setting_name("runtime/root_scene"), ROOT_SCENE);
    assert_eq!(setting_name(""), "scene_manager/");
}

#[test]
fn missing_setting_is_created() {
    let actions = prepare(false);
    assert_eq!(actions.len(), 5);
    assert!(matches!(
        &actions[0],
        SettingAction::SetSetting { name, value } if name == ROOT_SCENE && value.is_empty()
    ));
    assert!(matches!(
        &actions[1],
        SettingAction::SetInitialValue { name, value } if name == ROOT_SCENE && value.is_empty()
    ));
    match &actions[2] {
        SettingAction::AddPropertyInfo { info } => {
            assert_eq!(info.name, ROOT_SCENE);
            assert_eq!(info.value, "");
            assert_eq!(info.ty, SettingType::Name);
            assert_eq!(info.hint, PropertyHint::File);
            assert_eq!(info.hint_string, "PackedScene");
        }
        _ => panic!("must describe the setting"),
    }
    assert!(matches!(
        &actions[3],
        SettingAction::SetAsBasic { name, basic: true } if name == ROOT_SCENE
    ));
    assert!(matches!(
        &actions[4],
        SettingAction::SetAsInternal { name, internal: false } if name == ROOT_SCENE
    ));
}

#[test]
fn present_setting_keeps_its_value() {
    let actions = prepare(true);
    assert_eq!(actions.len(), 4);
    assert!(!actions.iter().any(|action| matches!(action, SettingAction::SetSetting { .. })));
}

#[test]
fn several_settings_are_set_up_in_order() {
    let mut defs = definitions();
    let mut advanced = definitions().remove(0);
    advanced.key = "debug/log".to_string();
    advanced.default_value = "off".to_string();
    advanced.is_advanced = true;
    advanced.is_internal = true;
    defs.push(advanced);
    let actions = prepare_all(&defs, &vec![true]);
    assert_eq!(actions.len(), 9);
    assert!(matches!(
        &actions[4],
        SettingAction::SetSetting { name, value } if name == "scene_manager/debug/log" && value == "off"
    ));
    assert!(matches!(&actions[7], SettingAction::SetAsBasic { basic: false, .. }));
    assert!(matches!(&actions[8], SettingAction::SetAsInternal { internal: true, .. }));
    assert_eq!(prepare_setting(&defs[1], true).len(), 4);
}

#[test]
fn settings_are_looked_up_by_full_name() {
    let has = |name: String| name == ROOT_SCENE;
    let read = |name: String| name;
    let other = "other".to_string();
    assert_eq!(get("runtime/root_scene", has, read), Some(ROOT_SCENE.to_string()));
    assert_eq!(get("x", has, |_: String| -> u8 { panic!("must not be read") }), None);
    assert_eq!(
        SceneManagerSettings::get_setting("runtime/root_scene", other.clone(), has, read),
        ROOT_SCENE
    );
    assert_eq!(SceneManagerSettings::get_setting("x", other.clone(), has, read), other);
    assert!(SceneManagerSettings::has_setting("runtime/root_scene", has));
    assert!(!SceneManagerSettings::has_setting("x", has));
}

#[test]
fn plugin_works_in_the_editor_only() {
    let plugin = SceneManagerPlugin {};
    assert!(plugin.enter_tree(false, false).is_empty());
    assert_eq!(plugin.enter_tree(true, false).len(), 5);
    assert_eq!(plugin.enter_tree(true, true).len(), 4);
}
