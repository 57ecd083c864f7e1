//! Tests of the leaf components: input translation, window attribute
//! building, display-configuration negotiation, and the accessibility
//! bridge with its focus navigation.

use desktop_runtime::accessibility::AccessibilityBridge;
use desktop_runtime::accessibility::AccessibilityFocusDirection;
use desktop_runtime::config::WindowConfig;
use desktop_runtime::config::build_window_attributes;
use desktop_runtime::events::AccessibilityAction;
use desktop_runtime::events::AccessibilityWindowEvent;
use desktop_runtime::events::Action;
use desktop_runtime::events::CursorIcon;
use desktop_runtime::events::EventMessage;
use desktop_runtime::gpu::GlConfigCandidate;
use desktop_runtime::gpu::Surface;
use desktop_runtime::gpu::pick_gl_config;
use desktop_runtime::input::Code;
use desktop_runtime::input::Key;
use desktop_runtime::input::Modifiers;
use desktop_runtime::input::NativeKey;
use desktop_runtime::input::NativeKeyCode;
use desktop_runtime::input::NativeModifiers;
use desktop_runtime::input::NativeNamedKey;
use desktop_runtime::input::NativePhysicalKey;
use desktop_runtime::input::translate_key;
use desktop_runtime::input::translate_modifiers;
use desktop_runtime::input::translate_physical_key;
use desktop_runtime::window::DesktopRenderer;
use desktop_runtime::window::ResumeResources;
use desktop_runtime::window::WindowState;

#[test]
fn named_keys_translate_one_to_one() {
    assert_eq!(translate_key(NativeKey::Named(NativeNamedKey::Enter)), Key::Enter);
    assert_eq!(translate_key(NativeKey::Named(NativeNamedKey::Escape)), Key::Escape);
    assert_eq!(translate_key(NativeKey::Named(NativeNamedKey::ArrowLeft)), Key::ArrowLeft);
    assert_eq!(translate_key(NativeKey::Named(NativeNamedKey::PageDown)), Key::PageDown);
}

#[test]
fn character_keys_keep_their_text() {
    assert_eq!(
        translate_key(NativeKey::Character(String::from("a"))),
        Key::Character(String::from("a"))
    );
}

#[test]
fn unrecognized_keys_degrade_to_unidentified() {
    assert_eq!(translate_key(NativeKey::Named(NativeNamedKey::Unrecognized)), Key::Unidentified);
    assert_eq!(translate_key(NativeKey::Unidentified), Key::Unidentified);
    assert_eq!(
        translate_physical_key(NativePhysicalKey::Code(NativeKeyCode::Unrecognized)),
        Code::Unidentified
    );
    assert_eq!(translate_physical_key(NativePhysicalKey::Unidentified), Code::Unidentified);
}

#[test]
fn physical_keys_translate_one_to_one() {
    assert_eq!(
        translate_physical_key(NativePhysicalKey::Code(NativeKeyCode::ShiftLeft)),
        Code::ShiftLeft
    );
    assert_eq!(
        translate_physical_key(NativePhysicalKey::Code(NativeKeyCode::Space)),
        Code::Space
    );
}

#[test]
fn modifier_bits_carry_over() {
    let native = NativeModifiers { shift: true, control: false, alt: true, meta: false };
    assert_eq!(
        translate_modifiers(native),
        Modifiers { shift: true, control: false, alt: true, meta: false }
    );
}

fn config_with_bounds(
    min_width: Option<u32>,
    min_height: Option<u32>,
    max_width: Option<u32>,
    max_height: Option<u32>,
) -> WindowConfig {
    WindowConfig {
        title: String::from("attrs"),
        width: 640,
        height: 480,
        min_width,
        min_height,
        max_width,
        max_height,
        decorations: false,
        transparent: true,
        icon: Some(3),
        background: 7,
    }
}

#[test]
fn attributes_start_invisible_with_config_values() {
    let attrs = build_window_attributes(&config_with_bounds(None, None, None, None));
    assert!(!attrs.visible);
    assert_eq!(attrs.title, "attrs");
    assert!(!attrs.decorations);
    assert!(attrs.transparent);
    assert_eq!(attrs.icon, Some(3));
    assert_eq!((attrs.width, attrs.height), (640, 480));
}

#[test]
fn size_bounds_need_both_dimensions() {
    let both = build_window_attributes(&config_with_bounds(Some(100), Some(80), Some(900), Some(700)));
    assert_eq!(both.min_size, Some((100, 80)));
    assert_eq!(both.max_size, Some((900, 700)));

    let half = build_window_attributes(&config_with_bounds(Some(100), None, None, Some(700)));
    assert_eq!(half.min_size, None);
    assert_eq!(half.max_size, None);
}

#[test]
fn negotiation_prefers_transparency_then_fewer_samples() {
    let configs = vec![
        GlConfigCandidate { supports_transparency: Some(false), num_samples: 0, stencil_size: 8 },
        GlConfigCandidate { supports_transparency: Some(true), num_samples: 4, stencil_size: 8 },
        GlConfigCandidate { supports_transparency: Some(true), num_samples: 2, stencil_size: 8 },
    ];
    assert_eq!(
        pick_gl_config(&configs),
        GlConfigCandidate { supports_transparency: Some(true), num_samples: 2, stencil_size: 8 }
    );
}

#[test]
fn negotiation_keeps_transparency_over_fewer_samples() {
    // a transparent offer wins even against fewer samples without it
    let configs = vec![
        GlConfigCandidate { supports_transparency: Some(false), num_samples: 2, stencil_size: 8 },
        GlConfigCandidate { supports_transparency: Some(true), num_samples: 4, stencil_size: 8 },
    ];
    let expected =
        GlConfigCandidate { supports_transparency: Some(true), num_samples: 4, stencil_size: 8 };
    assert_eq!(pick_gl_config(&configs), expected);
    // and the outcome does not depend on the order of the offers
    let reversed = vec![configs[1], configs[0]];
    assert_eq!(pick_gl_config(&reversed), expected);
}

#[test]
fn negotiation_treats_unknown_transparency_as_unsupported() {
    let configs = vec![
        GlConfigCandidate { supports_transparency: None, num_samples: 2, stencil_size: 8 },
        GlConfigCandidate { supports_transparency: None, num_samples: 2, stencil_size: 0 },
        GlConfigCandidate { supports_transparency: Some(false), num_samples: 4, stencil_size: 8 },
    ];
    // the first candidate wins every tie
    assert_eq!(
        pick_gl_config(&configs),
        GlConfigCandidate { supports_transparency: None, num_samples: 2, stencil_size: 8 }
    );
}

#[test]
fn surface_create_takes_exact_size() {
    assert_eq!(Surface::create(400, 300), Surface { width: 400, height: 300 });
}

#[test]
fn navigation_over_single_node_returns_to_itself() {
    let mut bridge = AccessibilityBridge::new();
    bridge.set_focusable_nodes(vec![17]);
    assert_eq!(bridge.navigate(AccessibilityFocusDirection::Forward), Some(17));
    assert_eq!(bridge.focused_node, Some(17));
    assert_eq!(bridge.navigate(AccessibilityFocusDirection::Forward), Some(17));
    assert_eq!(bridge.navigate(AccessibilityFocusDirection::Backward), Some(17));
    assert_eq!(bridge.focused_node, Some(17));
}

#[test]
fn navigation_wraps_at_both_ends() {
    let mut bridge = AccessibilityBridge::new();
    bridge.set_focusable_nodes(vec![1, 2, 3]);
    // unfocused: forward enters at the first node, backward at the last
    assert_eq!(bridge.navigate(AccessibilityFocusDirection::Forward), Some(1));
    assert_eq!(bridge.navigate(AccessibilityFocusDirection::Forward), Some(2));
    assert_eq!(bridge.navigate(AccessibilityFocusDirection::Forward), Some(3));
    assert_eq!(bridge.navigate(AccessibilityFocusDirection::Forward), Some(1));
    assert_eq!(bridge.navigate(AccessibilityFocusDirection::Backward), Some(3));
    assert_eq!(bridge.navigate(AccessibilityFocusDirection::Backward), Some(2));
}

#[test]
fn navigation_with_nothing_focusable_changes_nothing() {
    let mut bridge = AccessibilityBridge::new();
    assert_eq!(bridge.navigate(AccessibilityFocusDirection::Forward), None);
    assert_eq!(bridge.navigate(AccessibilityFocusDirection::Backward), None);
    assert_eq!(bridge.focused_node, None);
}

#[test]
fn initial_tree_is_handed_off_exactly_once() {
    let mut bridge = AccessibilityBridge::new();
    assert!(bridge.process_initial_tree());
    assert!(!bridge.process_initial_tree());
    assert!(!bridge.process_initial_tree());
}

fn active_renderer() -> DesktopRenderer {
    let config = WindowConfig {
        title: String::from("nav"),
        width: 320,
        height: 240,
        min_width: None,
        min_height: None,
        max_width: None,
        max_height: None,
        decorations: true,
        transparent: false,
        icon: None,
        background: 0,
    };
    let mut renderer = DesktopRenderer::new(config, None);
    renderer.resumed(ResumeResources {
        window_width: 320,
        window_height: 240,
        scale_factor: 1250,
        num_samples: 0,
        stencil_size: 8,
    });
    renderer
}

fn focusable(renderer: &mut DesktopRenderer, nodes: Vec<u64>) {
    match &mut renderer.state {
        WindowState::Created(created) => {
            created.app.accessibility.set_focusable_nodes(nodes);
        }
        _ => panic!("window should be active"),
    }
}

#[test]
fn focus_messages_move_focus_and_notify() {
    let mut renderer = active_renderer();
    focusable(&mut renderer, vec![5, 6]);

    let explicit = renderer.user_event(EventMessage::FocusAccessibilityNode(6));
    assert_eq!(explicit, vec![Action::SetAccessibilityFocus(6)]);

    let next = renderer.user_event(EventMessage::FocusNextAccessibilityNode);
    assert_eq!(next, vec![Action::SetAccessibilityFocus(5)]);

    let prev = renderer.user_event(EventMessage::FocusPrevAccessibilityNode);
    assert_eq!(prev, vec![Action::SetAccessibilityFocus(6)]);
}

#[test]
fn platform_focus_action_sets_focus_and_others_are_ignored() {
    let mut renderer = active_renderer();
    let focus = renderer.user_event(EventMessage::Accessibility(
        AccessibilityWindowEvent::ActionRequested {
            action: AccessibilityAction::Focus,
            target: 9,
        },
    ));
    assert_eq!(focus, vec![Action::SetAccessibilityFocus(9)]);

    let other = renderer.user_event(EventMessage::Accessibility(
        AccessibilityWindowEvent::ActionRequested {
            action: AccessibilityAction::Other,
            target: 9,
        },
    ));
    assert_eq!(other, vec![]);
}

#[test]
fn initial_tree_request_is_honoured_once_through_the_controller() {
    let mut renderer = active_renderer();
    let first = renderer.user_event(EventMessage::Accessibility(
        AccessibilityWindowEvent::InitialTreeRequested,
    ));
    assert_eq!(first, vec![Action::SendInitialAccessibilityTree]);
    let second = renderer.user_event(EventMessage::Accessibility(
        AccessibilityWindowEvent::InitialTreeRequested,
    ));
    assert_eq!(second, vec![]);
}

#[test]
fn cursor_icon_and_remeasure_messages_forward_with_scale() {
    let mut renderer = active_renderer();
    let icon = renderer.user_event(EventMessage::SetCursorIcon(CursorIcon::Pointer));
    assert_eq!(icon, vec![Action::SetCursorIcon(CursorIcon::Pointer)]);

    let remeasure = renderer.user_event(EventMessage::RemeasureTextGroup(77));
    assert_eq!(remeasure, vec![Action::RemeasureTextGroup { id: 77, scale_factor: 1250 }]);
    match &renderer.state {
        WindowState::Created(created) => assert!(created.app.measure_layout_on_next_render),
        _ => panic!("window should be active"),
    }
}
