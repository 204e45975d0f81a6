use airslate_pc_server::shortcut::domain::{
    AdvancedAction, BindingId, GestureBinding, MouseButton, PointerAnchor, RadialInnerBindings,
    ShortcutAction, SpecialAction, StylusTrigger, SwipeAxis,
};
use airslate_pc_server::shortcut::keys::{all_key_codes, KeyCode};
use airslate_pc_server::shortcut::preset::DefaultPreset;
use airslate_pc_server::shortcut::profile::{
    all_bindings, ShortcutPreset, ShortcutPresetLibrary, ShortcutProfile,
};

fn right_click() -> ShortcutAction {
    ShortcutAction::Advanced(AdvancedAction::PointerClick {
        keys: Vec::new(),
        button: MouseButton::Right,
        anchor: PointerAnchor::CurrentHoverOrLastInRange,
    })
}

#[test]
fn expanded_key_labels_round_trip_through_desktop_protocol() {
    for key in [
        KeyCode::ControlRight,
        KeyCode::MetaLeft,
        KeyCode::ArrowUp,
        KeyCode::F24,
        KeyCode::NumpadEnter,
        KeyCode::Semicolon,
        KeyCode::MediaPlayPause,
        KeyCode::BrowserBack,
    ] {
        assert_eq!(KeyCode::parse(key.label()), Some(key));
    }
}

#[test]
fn windows_key_facts_distinguish_extended_keys() {
    assert_eq!(
        KeyCode::NumpadEnter.virtual_key(),
        KeyCode::Enter.virtual_key()
    );
    assert!(KeyCode::NumpadEnter.is_extended());
    assert!(!KeyCode::Enter.is_extended());
    assert_eq!(KeyCode::F24.virtual_key(), 0x87);
    assert_eq!(KeyCode::MediaPlayPause.virtual_key(), 0xB3);
}

#[test]
fn maps_current_default_bindings() {
    assert_eq!(
        DefaultPreset.action_for(BindingId::StylusTrigger(StylusTrigger::Squeeze)),
        right_click()
    );
    assert_eq!(
        DefaultPreset.action_for(BindingId::StylusTrigger(StylusTrigger::DoubleTap)),
        right_click()
    );
    assert_eq!(
        DefaultPreset.action_for(BindingId::Gesture(GestureBinding::ThreePan)),
        ShortcutAction::Advanced(AdvancedAction::PointerDrag {
            modifiers: vec![KeyCode::Alt],
            button: Some(MouseButton::Right),
        })
    );
    assert_eq!(
        DefaultPreset.action_for(BindingId::Gesture(GestureBinding::TwoPinch)),
        ShortcutAction::Advanced(AdvancedAction::PointerWheel {
            modifiers: vec![KeyCode::Alt],
        })
    );
    assert_eq!(
        DefaultPreset.action_for(BindingId::Gesture(GestureBinding::TwoRotate)),
        ShortcutAction::TriggerChord(vec![KeyCode::R])
    );
    assert_eq!(
        DefaultPreset.action_for(BindingId::Gesture(GestureBinding::LongPress { fingers: 1 })),
        ShortcutAction::HoldKeys(vec![KeyCode::Alt])
    );
    assert_eq!(
        DefaultPreset.action_for(BindingId::StylusTrigger(StylusTrigger::FourTap)),
        ShortcutAction::Advanced(AdvancedAction::ReleaseActiveKeys)
    );
}

#[test]
fn keeps_two_pan_reserved_for_future_radial_menu() {
    assert_eq!(
        DefaultPreset.action_for(BindingId::Gesture(GestureBinding::TwoPan)),
        ShortcutAction::Advanced(AdvancedAction::ReservedRadialMenu)
    );
}

#[test]
fn profile_defaults_to_preset_mapping() {
    let profile = ShortcutProfile::default();
    assert_eq!(
        profile.action_for(BindingId::StylusTrigger(StylusTrigger::DoubleTap)),
        right_click()
    );
}

#[test]
fn preset_library_defaults_to_single_default_preset() {
    let library = ShortcutPresetLibrary::default();
    assert_eq!(library.presets.len(), 1);
    assert_eq!(library.active_preset_id, "default");
    assert_eq!(library.presets[0].name, "默认预设");
}

#[test]
fn removing_active_custom_preset_falls_back_to_default() {
    let mut library = ShortcutPresetLibrary::default();
    let preset = library.create("测试预设".to_string()).clone();

    assert!(library.remove(&preset.id));
    assert_eq!(library.active_preset_id, "default");
    assert_eq!(library.presets.len(), 1);
}

#[test]
fn default_preset_cannot_be_removed() {
    let mut library = ShortcutPresetLibrary::default();

    assert!(!library.remove("default"));
    assert_eq!(library.presets.len(), 1);
    assert_eq!(library.active_preset_id, "default");
}

#[test]
fn custom_binding_overrides_the_preset_until_reset() {
    let mut profile = ShortcutProfile::default();
    let binding = BindingId::Gesture(GestureBinding::TwoRotate);
    profile.set_custom_binding(binding, ShortcutAction::TriggerChord(vec![KeyCode::Z]));
    assert_eq!(
        profile.action_for(binding),
        ShortcutAction::TriggerChord(vec![KeyCode::Z])
    );
    assert!(profile.has_custom_binding(binding));
    assert_eq!(
        profile.preset_action_for(binding),
        ShortcutAction::TriggerChord(vec![KeyCode::R])
    );
    profile.reset_to_default();
    assert!(!profile.has_custom_binding(binding));
    assert_eq!(
        profile.action_for(binding),
        ShortcutAction::TriggerChord(vec![KeyCode::R])
    );
}

#[test]
fn disabled_overrides_are_dropped() {
    let mut profile = ShortcutProfile::default();
    let binding = BindingId::Gesture(GestureBinding::TwoPinch);
    profile.set_custom_binding(binding, ShortcutAction::Disabled);
    assert_eq!(profile.action_for(binding), ShortcutAction::Disabled);
    profile.remove_disabled_overrides();
    assert!(!profile.has_custom_binding(binding));
    assert_eq!(
        profile.action_for(binding),
        ShortcutAction::Advanced(AdvancedAction::PointerWheel {
            modifiers: vec![KeyCode::Alt],
        })
    );
}

#[test]
fn four_tap_override_is_dropped_as_a_fixed_binding() {
    let mut profile = ShortcutProfile::default();
    let binding = BindingId::StylusTrigger(StylusTrigger::FourTap);
    profile.set_custom_binding(binding, ShortcutAction::TriggerChord(vec![KeyCode::A]));
    profile.remove_fixed_binding_overrides();
    assert_eq!(
        profile.action_for(binding),
        ShortcutAction::Advanced(AdvancedAction::ReleaseActiveKeys)
    );
}

#[test]
fn library_select_rename_reset() {
    let mut library = ShortcutPresetLibrary::default();
    let id = library.create("Work".to_string()).id.clone();
    assert_eq!(library.active_preset_id, id);
    assert!(library.select("default"));
    assert_eq!(library.active().unwrap().id, "default");
    assert!(!library.select("missing"));
    assert!(library.rename(&id, "Play".to_string()));
    let position = library.position_of(&id).unwrap();
    assert_eq!(library.presets[position].name, "Play");
    assert!(library.reset(&id));
    assert!(!library.rename("missing", "x".to_string()));
}

#[test]
fn created_preset_ids_are_distinct_from_default() {
    let mut library = ShortcutPresetLibrary::default();
    let first = library.create("A".to_string()).id.clone();
    let second = library.create("B".to_string()).id.clone();
    assert_ne!(first, "default");
    assert_ne!(first, second);
    assert_eq!(first.len(), 36);
    assert_eq!(library.presets.len(), 3);
}

#[test]
fn default_preset_is_named_and_identified() {
    let preset = ShortcutPreset::default_preset();
    assert_eq!(preset.id, "default");
    assert_eq!(preset.name, "默认预设");
}

#[test]
fn binding_catalogue_lists_every_binding_once() {
    let bindings = all_bindings();
    for (i, a) in bindings.iter().enumerate() {
        for b in bindings.iter().skip(i + 1) {
            assert_ne!(a, b);
        }
    }
    assert!(bindings.contains(&BindingId::Gesture(GestureBinding::Swipe {
        fingers: 1,
        axis: SwipeAxis::Vertical,
    })));
}

#[test]
fn persisted_keys_round_trip() {
    for binding in all_bindings() {
        assert_eq!(
            BindingId::parse_persisted_key(&binding.persisted_key()),
            Some(binding)
        );
    }
    assert_eq!(BindingId::parse_persisted_key("gesture:unknown"), None);
}

#[test]
fn special_action_tokens_round_trip() {
    for action in [
        SpecialAction::NoAction,
        SpecialAction::RadialMenu,
        SpecialAction::PointerClickLeft,
        SpecialAction::PointerClickRight,
        SpecialAction::PointerMove,
        SpecialAction::PointerDragLeft,
        SpecialAction::PointerDragRight,
        SpecialAction::PointerWheel,
        SpecialAction::PointerRotate,
    ] {
        assert_eq!(SpecialAction::parse(action.token()), Some(action));
    }
    assert_eq!(SpecialAction::NoAction.token(), "none");
    assert_eq!(SpecialAction::parse("bogus"), None);
}

#[test]
fn radial_inner_key_lookup() {
    let inner = RadialInnerBindings::default_bindings();
    assert_eq!(inner.top, KeyCode::Shift);
    assert_eq!(inner.right, KeyCode::Alt);
    assert_eq!(inner.bottom, KeyCode::Control);
    assert_eq!(inner.left, KeyCode::Space);
}

#[test]
fn every_key_label_reads_back_as_its_key() {
    let keys = all_key_codes();
    for key in &keys {
        assert_eq!(KeyCode::parse(key.label()), Some(*key));
    }
    assert_eq!(KeyCode::parse("NotAKey"), None);
}

#[test]
fn unlisted_persisted_keys_read_back_as_nothing() {
    assert_eq!(BindingId::parse_persisted_key("gesture:long_press:5"), None);
    assert_eq!(BindingId::parse_persisted_key("gesture:swipe:2:vertical"), None);
    assert_eq!(
        BindingId::parse_persisted_key("gesture:long_press:4"),
        Some(BindingId::Gesture(GestureBinding::LongPress { fingers: 4 }))
    );
}
