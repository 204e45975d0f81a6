use airslate_pc_server::error::AppError;
use airslate_pc_server::shortcut::domain::{
    AdvancedAction, BindingId, GestureBinding, MouseButton, PointerAnchor, RadialInnerBindings,
    ShortcutAction, SpecialAction, StylusTrigger, SwipeAxis,
};
use airslate_pc_server::shortcut::editing::{
    create_shortcut_preset, delete_shortcut_preset, normalize_binding_keys, normalize_keys,
    normalize_shortcuts, rename_shortcut_preset, reset_shortcut_preset, select_shortcut_preset,
    set_binding_keys, set_binding_special_action, set_radial_inner_bindings,
    set_radial_inner_enabled, set_radial_outer_binding, validate_radial_inner_bindings,
};
use airslate_pc_server::shortcut::keys::KeyCode;
use airslate_pc_server::shortcut::profile::{ShortcutPresetLibrary, ShortcutProfile};

fn active_profile(library: &ShortcutPresetLibrary) -> &ShortcutProfile {
    &library.active().expect("active preset should exist").profile
}

#[test]
fn set_radial_inner_bindings_rejects_duplicate_keys() {
    let mut library = ShortcutPresetLibrary::default();
    let result = set_radial_inner_bindings(
        &mut library,
        RadialInnerBindings {
            top: KeyCode::Alt,
            right: KeyCode::Alt,
            bottom: KeyCode::Space,
            left: KeyCode::Control,
        },
    );
    assert_eq!(
        result,
        Err(AppError::DesktopShell(
            "radial inner bindings must contain four distinct keys".to_string()
        ))
    );
}

#[test]
fn set_radial_inner_bindings_updates_active_profile() {
    let mut library = ShortcutPresetLibrary::default();
    let inner = RadialInnerBindings {
        top: KeyCode::A,
        right: KeyCode::B,
        bottom: KeyCode::C,
        left: KeyCode::D,
    };
    set_radial_inner_bindings(&mut library, inner).expect("distinct keys are accepted");
    assert_eq!(active_profile(&library).radial_menu().inner, inner);
}

#[test]
fn set_radial_inner_enabled_updates_active_profile() {
    let mut library = ShortcutPresetLibrary::default();
    set_radial_inner_enabled(&mut library, false).expect("flag should be stored");
    assert!(!active_profile(&library).radial_menu().inner_enabled);
}

#[test]
fn four_tap_binding_rejects_key_editing() {
    let mut library = ShortcutPresetLibrary::default();
    let result = set_binding_keys(
        &mut library,
        BindingId::StylusTrigger(StylusTrigger::FourTap),
        vec![KeyCode::Delete],
    );
    assert_eq!(
        result,
        Err(AppError::DesktopShell(
            "this binding has a fixed system action".to_string()
        ))
    );
}

#[test]
fn edited_binding_keys_are_normalized_and_stored() {
    let mut library = ShortcutPresetLibrary::default();
    let binding = BindingId::StylusTrigger(StylusTrigger::TwoTap);
    set_binding_keys(&mut library, binding, vec![KeyCode::Y, KeyCode::Control, KeyCode::Y])
        .expect("binding keys should be stored");
    assert_eq!(
        active_profile(&library).action_for(binding),
        ShortcutAction::TriggerChord(vec![KeyCode::Control, KeyCode::Y])
    );
}

#[test]
fn keyboard_keys_and_special_action_are_updated_independently() {
    let mut library = ShortcutPresetLibrary::default();
    let binding = BindingId::StylusTrigger(StylusTrigger::TwoTap);

    set_binding_keys(&mut library, binding, vec![KeyCode::Control, KeyCode::K])
        .expect("keyboard keys should save");
    set_binding_special_action(&mut library, binding, SpecialAction::PointerClickLeft)
        .expect("special action should save");
    assert_eq!(
        active_profile(&library).action_for(binding),
        ShortcutAction::Advanced(AdvancedAction::PointerClick {
            keys: vec![KeyCode::Control, KeyCode::K],
            button: MouseButton::Left,
            anchor: PointerAnchor::CurrentHoverOrLastInRange,
        })
    );

    set_binding_keys(&mut library, binding, Vec::new()).expect("keyboard keys may be cleared");
    assert_eq!(
        active_profile(&library).action_for(binding),
        ShortcutAction::Advanced(AdvancedAction::PointerClick {
            keys: Vec::new(),
            button: MouseButton::Left,
            anchor: PointerAnchor::CurrentHoverOrLastInRange,
        })
    );

    set_binding_special_action(&mut library, binding, SpecialAction::NoAction)
        .expect("special action may be cleared");
    assert_eq!(
        active_profile(&library).action_for(binding),
        ShortcutAction::TriggerChord(Vec::new())
    );
}

#[test]
fn unsupported_special_action_is_refused() {
    let mut library = ShortcutPresetLibrary::default();
    let binding = BindingId::Gesture(GestureBinding::TwoPinch);
    let result = set_binding_special_action(&mut library, binding, SpecialAction::PointerRotate);
    assert_eq!(
        result,
        Err(AppError::DesktopShell(
            "special action PointerRotate is not supported by Gesture(TwoPinch)".to_string()
        ))
    );
    let rotate = BindingId::Gesture(GestureBinding::TwoRotate);
    assert_eq!(
        set_binding_special_action(&mut library, rotate, SpecialAction::PointerWheel),
        Err(AppError::DesktopShell(
            "special action PointerWheel is not supported by Gesture(TwoRotate)".to_string()
        ))
    );
    let long_press = BindingId::Gesture(GestureBinding::LongPress { fingers: 1 });
    assert_eq!(
        set_binding_special_action(&mut library, long_press, SpecialAction::RadialMenu),
        Err(AppError::DesktopShell(
            "special action RadialMenu is not supported by Gesture(LongPress { fingers: 1 })"
                .to_string()
        ))
    );
    let swipe = BindingId::Gesture(GestureBinding::Swipe {
        fingers: 1,
        axis: SwipeAxis::Horizontal,
    });
    assert_eq!(
        set_binding_special_action(&mut library, swipe, SpecialAction::PointerMove),
        Err(AppError::DesktopShell(
            "special action PointerMove is not supported by Gesture(Swipe { fingers: 1, axis: Horizontal })"
                .to_string()
        ))
    );
    let squeeze = BindingId::StylusTrigger(StylusTrigger::Squeeze);
    assert_eq!(
        set_binding_special_action(&mut library, squeeze, SpecialAction::PointerDragLeft),
        Err(AppError::DesktopShell(
            "special action PointerDragLeft is not supported by StylusTrigger(Squeeze)".to_string()
        ))
    );
}

#[test]
fn radial_outer_binding_requires_keys_and_a_valid_slot() {
    let mut library = ShortcutPresetLibrary::default();
    assert_eq!(
        set_radial_outer_binding(&mut library, 0, Vec::new()),
        Err(AppError::DesktopShell(
            "shortcut keys cannot be empty".to_string()
        ))
    );
    assert_eq!(
        set_radial_outer_binding(&mut library, 8, vec![KeyCode::A]),
        Err(AppError::DesktopShell(
            "radial outer slot index out of range: 8".to_string()
        ))
    );
    set_radial_outer_binding(&mut library, 3, vec![KeyCode::S, KeyCode::Control])
        .expect("slot 3 exists");
    assert_eq!(
        active_profile(&library).radial_menu().outer[3].keys,
        vec![KeyCode::Control, KeyCode::S]
    );
}

#[test]
fn key_normalization_sorts_and_deduplicates() {
    assert_eq!(
        normalize_binding_keys(vec![KeyCode::Z, KeyCode::Shift, KeyCode::Z]),
        vec![KeyCode::Shift, KeyCode::Z]
    );
    assert_eq!(
        normalize_keys(Vec::new()),
        Err(AppError::DesktopShell(
            "shortcut keys cannot be empty".to_string()
        ))
    );
    assert!(validate_radial_inner_bindings(&RadialInnerBindings::default_bindings()).is_ok());
}

#[test]
fn preset_edits_report_unknown_presets() {
    let mut library = ShortcutPresetLibrary::default();
    assert!(select_shortcut_preset(&mut library, "missing").is_err());
    assert!(rename_shortcut_preset(&mut library, "missing", "x".to_string()).is_err());
    assert!(reset_shortcut_preset(&mut library, "missing").is_err());
    assert!(delete_shortcut_preset(&mut library, "default").is_err());
}

#[test]
fn preset_create_select_delete_cycle() {
    let mut library = ShortcutPresetLibrary::default();
    let created = create_shortcut_preset(&mut library, "Paint".to_string()).expect("created");
    assert_eq!(created.name, "Paint");
    assert_eq!(library.active_preset_id, created.id);
    select_shortcut_preset(&mut library, "default").expect("default exists");
    assert_eq!(library.active_preset_id, "default");
    rename_shortcut_preset(&mut library, &created.id, "Sketch".to_string()).expect("renamed");
    delete_shortcut_preset(&mut library, &created.id).expect("deleted");
    assert_eq!(library.presets.len(), 1);
}

#[test]
fn normalize_removes_four_tap_overrides_from_all_profiles() {
    let mut profile = ShortcutProfile::default();
    let mut library = ShortcutPresetLibrary::default();
    let binding = BindingId::StylusTrigger(StylusTrigger::FourTap);
    profile.set_custom_binding(binding, ShortcutAction::TriggerChord(vec![KeyCode::Delete]));
    library.presets[0]
        .profile
        .set_custom_binding(binding, ShortcutAction::TriggerChord(vec![KeyCode::Delete]));

    normalize_shortcuts(&mut profile, &mut library);

    let fixed = ShortcutAction::Advanced(AdvancedAction::ReleaseActiveKeys);
    assert_eq!(profile.action_for(binding), fixed);
    assert_eq!(library.presets[0].profile.action_for(binding), fixed);
}

#[test]
fn preset_names_are_trimmed_and_must_not_be_blank() {
    let mut library = ShortcutPresetLibrary::default();
    let created = create_shortcut_preset(&mut library, "  Paint \n".to_string()).expect("created");
    assert_eq!(created.name, "Paint");
    assert_eq!(
        create_shortcut_preset(&mut library, " \t ".to_string()).map(|p| p.name),
        Err(AppError::ShortcutPreset(
            "preset name cannot be empty".to_string()
        ))
    );
    assert_eq!(library.presets.len(), 2);
}
