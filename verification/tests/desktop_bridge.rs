use airslate_pc_server::desktop::commands::{
    parse_key_code, parse_key_codes, parse_radial_inner_bindings, parse_special_action_payload,
    BindingSpecialActionPayload, RadialInnerBindingsPayload,
};
use airslate_pc_server::desktop::dto::{
    binding_dtos, binding_id, binding_label, parse_binding_id, preset_dtos, workspace_snapshot,
    ActionDto,
};
use airslate_pc_server::desktop::local_ip::{
    collect_lan_ipv4_values, ipv4_text, is_documentation_ipv4, is_usable_lan_ipv4,
    is_virtual_interface_name, InterfaceAddress,
};
use airslate_pc_server::error::AppError;
use airslate_pc_server::session::Ipv4Address;
use airslate_pc_server::text::trim_text;
use airslate_pc_server::shortcut::domain::{
    AdvancedAction, BindingId, GestureBinding, RadialInnerBindings, ShortcutAction, SpecialAction,
    StylusTrigger, SwipeAxis,
};
use airslate_pc_server::shortcut::keys::KeyCode;
use airslate_pc_server::shortcut::profile::{all_bindings, ShortcutPresetLibrary, ShortcutProfile};
use airslate_pc_server::workspace::{ActiveWorkspace, MonitorId, MonitorInfo, WorkspaceSnapshot};

fn monitor(id: &str, primary: bool) -> MonitorInfo {
    MonitorInfo {
        id: MonitorId::new(id.to_string()),
        device_name: format!("\\\\.\\{id}"),
        is_primary: primary,
        pixel_width: 2560,
        pixel_height: 1440,
        virtual_left: 0,
        virtual_top: 0,
        virtual_right: 2560,
        virtual_bottom: 1440,
    }
}

#[test]
fn four_tap_binding_is_exposed_as_fixed_release_action() {
    let profile = ShortcutProfile::default();
    let binding = binding_dtos(&profile, false)
        .into_iter()
        .find(|binding| {
            binding.id == BindingId::StylusTrigger(StylusTrigger::FourTap).persisted_key()
        })
        .expect("four tap binding should exist");

    assert!(binding.editable_keys.is_none());
    match binding.current_action {
        ActionDto::Advanced { label, detail, .. } => {
            assert_eq!(label, "释放KeyDown状态键");
            assert_eq!(detail, "释放所有当前按下或切换保持的按键状态");
        }
        other => panic!("expected advanced action, got {other:?}"),
    }
    assert_eq!(
        profile.action_for(BindingId::StylusTrigger(StylusTrigger::FourTap)),
        ShortcutAction::Advanced(AdvancedAction::ReleaseActiveKeys)
    );
}

#[test]
fn hold_binding_exposes_its_key_labels() {
    let profile = ShortcutProfile::default();
    let binding = binding_dtos(&profile, false)
        .into_iter()
        .find(|binding| binding.id == "gesture:long_press:1")
        .expect("long press binding should exist");
    assert_eq!(
        binding.current_action,
        ActionDto::HoldKey {
            keys: vec!["Alt".to_string()]
        }
    );
    assert_eq!(binding.editable_keys, Some(vec!["Alt".to_string()]));
    assert!(binding.uses_preset);
}

#[test]
fn binding_ids_round_trip_and_unknown_ids_are_reported() {
    let binding = BindingId::Gesture(GestureBinding::Swipe {
        fingers: 1,
        axis: SwipeAxis::Horizontal,
    });
    assert_eq!(parse_binding_id(&binding_id(binding)), Ok(binding));
    assert_eq!(
        parse_binding_id("nope"),
        Err(AppError::DesktopShell("unknown binding id: nope".to_string()))
    );
}

#[test]
fn binding_labels_name_the_gesture() {
    assert_eq!(
        binding_label(BindingId::Gesture(GestureBinding::LongPress { fingers: 2 })),
        "2 指长按"
    );
    assert_eq!(
        binding_label(BindingId::StylusTrigger(StylusTrigger::DoubleTap)),
        "笔双击"
    );
}

#[test]
fn preset_list_marks_the_active_preset() {
    let mut library = ShortcutPresetLibrary::default();
    let id = library.create("Sketch".to_string()).id.clone();
    let dtos = preset_dtos(&library);
    assert_eq!(dtos.len(), 2);
    assert!(!dtos[0].active);
    assert_eq!(dtos[1].id, id);
    assert_eq!(dtos[1].name, "Sketch");
    assert!(dtos[1].active);
}

#[test]
fn workspace_snapshot_labels_monitors_and_marks_the_selection() {
    let snapshot = WorkspaceSnapshot {
        monitors: vec![monitor("DISPLAY1", true), monitor("DISPLAY2", false)],
        active_monitor_id: Some(MonitorId::new("DISPLAY2".to_string())),
        active_workspace: Some(ActiveWorkspace {
            monitor: monitor("DISPLAY2", false),
        }),
    };
    let dto = workspace_snapshot(&snapshot);
    assert_eq!(dto.monitors.len(), 2);
    assert_eq!(dto.monitors[0].label, "\\\\.\\DISPLAY1 (2560×1440) · 主显示器");
    assert_eq!(dto.monitors[1].label, "\\\\.\\DISPLAY2 (2560×1440)");
    assert!(!dto.monitors[0].selected);
    assert!(dto.monitors[1].selected);
    let active = dto.active_monitor.expect("active monitor");
    assert_eq!(active.id, "DISPLAY2");
    assert_eq!(active.pixel_width, 2560);
}

#[test]
fn payload_keys_are_parsed_by_label() {
    assert_eq!(parse_key_code("左 Ctrl"), Ok(KeyCode::ControlLeft));
    assert_eq!(
        parse_key_code("Hyper"),
        Err("unknown key code: Hyper".to_string())
    );
    assert_eq!(
        parse_key_codes(&vec!["Ctrl".to_string(), "Z".to_string()]),
        Ok(vec![KeyCode::Control, KeyCode::Z])
    );
    assert_eq!(
        parse_key_codes(&vec!["Ctrl".to_string(), "??".to_string(), "!!".to_string()]),
        Err("unknown key code: ??".to_string())
    );
}

#[test]
fn inner_ring_payload_reports_the_first_unknown_key() {
    let payload = RadialInnerBindingsPayload {
        top: "Shift".to_string(),
        right: "Alt".to_string(),
        bottom: "Ctrl".to_string(),
        left: "Space".to_string(),
    };
    assert_eq!(
        parse_radial_inner_bindings(&payload),
        Ok(RadialInnerBindings::default_bindings())
    );
    let bad = RadialInnerBindingsPayload {
        right: "bad-right".to_string(),
        left: "bad-left".to_string(),
        ..payload
    };
    assert_eq!(
        parse_radial_inner_bindings(&bad),
        Err("unknown key code: bad-right".to_string())
    );
}

#[test]
fn special_action_payload_is_parsed_by_token() {
    let payload = |token: &str| BindingSpecialActionPayload {
        binding_id: "stylus:two_tap".to_string(),
        special_action: token.to_string(),
    };
    assert_eq!(
        parse_special_action_payload(&payload("pointerClickLeft")),
        Ok(SpecialAction::PointerClickLeft)
    );
    assert_eq!(
        parse_special_action_payload(&payload("teleport")),
        Err("unknown special action: teleport".to_string())
    );
}

fn entry(name: &str, a: u8, b: u8, c: u8, d: u8) -> InterfaceAddress {
    InterfaceAddress {
        name: name.to_string(),
        ipv4: Some(Ipv4Address::new(a, b, c, d)),
    }
}

#[test]
fn keeps_primary_physical_ipv4_first() {
    let values = collect_lan_ipv4_values(
        &vec![
            entry("Ethernet", 192, 168, 31, 20),
            entry("WLAN", 10, 9, 103, 31),
            entry("vEthernet (Default Switch)", 172, 28, 112, 1),
        ],
        Some(Ipv4Address::new(10, 9, 103, 31)),
    );

    assert_eq!(values, vec!["10.9.103.31", "192.168.31.20"]);
}

#[test]
fn keeps_non_virtual_private_ipv4_values_when_primary_is_missing() {
    let values = collect_lan_ipv4_values(
        &vec![
            entry("WLAN", 10, 9, 103, 31),
            entry("Ethernet", 192, 168, 31, 20),
            entry("Loopback Pseudo-Interface 1", 127, 0, 0, 1),
            entry("DockerNAT", 192, 168, 65, 1),
            entry("vEthernet (WSL)", 172, 27, 224, 1),
            entry("WLAN", 169, 254, 10, 20),
            entry("WLAN", 8, 8, 8, 8),
        ],
        None,
    );

    assert_eq!(values, vec!["10.9.103.31", "192.168.31.20"]);
}

#[test]
fn ignores_virtual_private_ipv4_values_when_no_physical_candidate_exists() {
    let values = collect_lan_ipv4_values(
        &vec![
            entry("ZeroTier One", 10, 15, 20, 9),
            entry("vEthernet (Default Switch)", 172, 28, 112, 1),
            entry("DockerNAT", 192, 168, 65, 1),
        ],
        Some(Ipv4Address::new(10, 15, 20, 9)),
    );

    assert!(values.is_empty());
}

#[test]
fn duplicate_addresses_and_ipv6_interfaces_are_skipped() {
    let values = collect_lan_ipv4_values(
        &vec![
            entry("Ethernet", 192, 168, 1, 2),
            InterfaceAddress {
                name: "Ethernet".to_string(),
                ipv4: None,
            },
            entry("Ethernet 2", 192, 168, 1, 2),
        ],
        Some(Ipv4Address::new(192, 168, 9, 9)),
    );
    assert_eq!(values, vec!["192.168.1.2"]);
}

#[test]
fn lan_address_classification() {
    assert!(is_usable_lan_ipv4(Ipv4Address::new(172, 16, 0, 1)));
    assert!(!is_usable_lan_ipv4(Ipv4Address::new(172, 32, 0, 1)));
    assert!(!is_usable_lan_ipv4(Ipv4Address::new(8, 8, 8, 8)));
    assert!(is_documentation_ipv4(Ipv4Address::new(198, 51, 100, 7)));
    assert!(is_virtual_interface_name("Hyper-V Virtual Ethernet Adapter"));
    assert!(is_virtual_interface_name("TAILSCALE"));
    assert!(!is_virtual_interface_name("Wi-Fi"));
    assert_eq!(ipv4_text(Ipv4Address::new(10, 0, 255, 7)), "10.0.255.7");
}

#[test]
fn every_listed_binding_id_reads_back_as_its_binding() {
    for binding in all_bindings() {
        assert_eq!(parse_binding_id(&binding_id(binding)), Ok(binding));
    }
    assert_eq!(
        parse_binding_id("gesture:long_press:5"),
        Err(AppError::DesktopShell(
            "unknown binding id: gesture:long_press:5".to_string()
        ))
    );
}

#[test]
fn trimming_removes_unicode_whitespace_at_both_ends_only() {
    assert_eq!(trim_text("\u{3000} 我的 预设\t\n"), "我的 预设");
    assert_eq!(trim_text("   "), "");
    assert_eq!(trim_text(""), "");
    assert_eq!(trim_text("\u{a0}x\u{2029}"), "x");
    assert_eq!(trim_text("a b"), "a b");
}
