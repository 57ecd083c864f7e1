//! End-to-end tests of the window lifecycle controller: construction,
//! message dispatch, the render loop ordering, and the draining of the
//! message queue.

use desktop_runtime::accessibility::NavigationMode;
use desktop_runtime::config::WindowConfig;
use desktop_runtime::events::Action;
use desktop_runtime::events::CursorPoint;
use desktop_runtime::events::ElementState;
use desktop_runtime::events::EventMessage;
use desktop_runtime::events::EventName;
use desktop_runtime::events::MouseButton;
use desktop_runtime::events::PlatformEvent;
use desktop_runtime::events::StartCause;
use desktop_runtime::events::TouchPhase;
use desktop_runtime::events::WindowEvent;
use desktop_runtime::gpu::Surface;
use desktop_runtime::input::Modifiers;
use desktop_runtime::input::NativeModifiers;
use desktop_runtime::runtime::Incoming;
use desktop_runtime::window::CreatedState;
use desktop_runtime::window::DesktopRenderer;
use desktop_runtime::window::ResumeResources;
use desktop_runtime::window::WindowState;

fn test_config(width: u32, height: u32) -> WindowConfig {
    WindowConfig {
        title: String::from("app"),
        width,
        height,
        min_width: None,
        min_height: None,
        max_width: None,
        max_height: None,
        decorations: true,
        transparent: false,
        icon: Some(11),
        background: 0xff10_2030,
    }
}

fn test_resources(width: u32, height: u32) -> ResumeResources {
    ResumeResources {
        window_width: width,
        window_height: height,
        scale_factor: 1000,
        num_samples: 0,
        stencil_size: 8,
    }
}

fn active_renderer(width: u32, height: u32) -> DesktopRenderer {
    let mut renderer = DesktopRenderer::new(test_config(width, height), None);
    renderer.resumed(test_resources(width, height));
    renderer
}

fn created(renderer: &DesktopRenderer) -> &CreatedState {
    match &renderer.state {
        WindowState::Created(created) => created,
        _ => panic!("window should be active"),
    }
}

#[test]
fn new_renderer_is_not_created() {
    let renderer = DesktopRenderer::new(test_config(800, 600), None);
    assert!(matches!(renderer.state, WindowState::NotCreated(_)));
    assert_eq!(renderer.cursor_pos, CursorPoint { x: 0, y: 0 });
    assert_eq!(renderer.dropped_file_path, None);
    assert_eq!(renderer.scale_factor(), 0);
}

#[test]
fn resume_builds_active_state_in_order() {
    let mut renderer = DesktopRenderer::new(test_config(800, 600), None);
    let actions = renderer.resumed(test_resources(800, 600));
    assert_eq!(
        actions,
        vec![
            Action::AllowIme,
            Action::ShowWindow,
            Action::InitApp { scale_factor: 1000 },
            Action::ComputeLayout { width: 800, height: 600, scale_factor: 1000 },
            Action::TrySetVsync,
        ]
    );
    let state = created(&renderer);
    assert_eq!(state.surface, Surface { width: 800, height: 600 });
    assert_eq!(state.window.width, 800);
    assert_eq!(state.window.height, 600);
    assert!(state.window.ime_allowed);
    assert!(state.window.visible);
    // the window attributes consumed the icon
    assert_eq!(state.window_config.icon, None);
    assert!(!state.app.measure_layout_on_next_render);
}

#[test]
fn repeated_resume_only_retries_vsync() {
    let mut renderer = active_renderer(800, 600);
    let before = renderer.clone();
    let actions = renderer.resumed(test_resources(123, 456));
    assert_eq!(actions, vec![Action::TrySetVsync]);
    assert_eq!(renderer, before);
}

#[test]
fn first_loop_iteration_enqueues_a_poll() {
    let mut renderer = active_renderer(800, 600);
    let actions = renderer.new_events(StartCause::Init);
    assert_eq!(actions, vec![Action::EnqueueMessage(EventMessage::PollVDOM)]);
    assert_eq!(renderer.new_events(StartCause::Poll), vec![]);
    assert_eq!(renderer.new_events(StartCause::WaitCancelled), vec![]);
}

#[test]
fn poll_before_resume_is_ignored_without_fault() {
    let mut renderer = DesktopRenderer::new(test_config(800, 600), None);
    let before = renderer.clone();
    let actions = renderer.user_event(EventMessage::PollVDOM);
    assert_eq!(actions, vec![]);
    assert_eq!(renderer, before);
}

#[test]
fn template_update_applies_then_polls_exactly_once() {
    let mut renderer = active_renderer(800, 600);
    let actions = renderer.user_event(EventMessage::UpdateTemplate(42));
    assert_eq!(actions, vec![Action::ApplyTemplate(42), Action::PollVdom]);
    let polls = actions.iter().filter(|a| **a == Action::PollVdom).count();
    assert_eq!(polls, 1);
}

#[test]
fn resize_keeps_surface_in_lockstep_with_window() {
    let mut renderer = active_renderer(800, 600);
    let actions = renderer.window_event(WindowEvent::Resized { width: 400, height: 300 });
    let state = created(&renderer);
    assert_eq!(state.surface, Surface { width: 400, height: 300 });
    assert_eq!(state.window.width, 400);
    assert_eq!(state.window.height, 300);
    assert!(state.app.measure_layout_on_next_render);
    assert_eq!(
        actions,
        vec![
            Action::ForwardAccessibilityEvent,
            Action::RecreateSurface { width: 400, height: 300 },
            Action::ResizeGlSurface { width: 400, height: 300 },
            Action::RequestRedraw,
            Action::NotifyAppResize { width: 400, height: 300 },
        ]
    );
}

#[test]
fn resize_to_zero_keeps_presentation_surface_at_one_pixel() {
    let mut renderer = active_renderer(800, 600);
    let actions = renderer.window_event(WindowEvent::Resized { width: 0, height: 0 });
    let state = created(&renderer);
    assert_eq!(state.surface, Surface { width: 0, height: 0 });
    assert_eq!(state.gl_surface, Surface { width: 1, height: 1 });
    assert!(actions.contains(&Action::ResizeGlSurface { width: 1, height: 1 }));
}

#[test]
fn redraw_after_resize_lays_out_then_paints_at_new_size() {
    let mut renderer = active_renderer(800, 600);
    renderer.window_event(WindowEvent::Resized { width: 400, height: 300 });
    let frame = renderer.window_event(WindowEvent::RedrawRequested);
    assert_eq!(
        frame,
        vec![
            Action::ForwardAccessibilityEvent,
            Action::ComputeLayout { width: 400, height: 300, scale_factor: 1000 },
            Action::ClearSurface { background: 0xff10_2030 },
            Action::Render { width: 400, height: 300, hovered_node: None },
            Action::RunDeferredTasks,
            Action::PrePresentNotify,
            Action::Present,
        ]
    );
    assert!(!created(&renderer).app.measure_layout_on_next_render);
}

#[test]
fn redraw_without_pending_layout_skips_recomputation() {
    let mut renderer = active_renderer(800, 600);
    let frame = renderer.window_event(WindowEvent::RedrawRequested);
    assert_eq!(
        frame,
        vec![
            Action::ForwardAccessibilityEvent,
            Action::ClearSurface { background: 0xff10_2030 },
            Action::Render { width: 800, height: 600, hovered_node: None },
            Action::RunDeferredTasks,
            Action::PrePresentNotify,
            Action::Present,
        ]
    );
}

#[test]
fn dropped_file_pairs_with_next_cursor_move() {
    let mut renderer = active_renderer(800, 600);
    let drop_batch = renderer.window_event(WindowEvent::DroppedFile(String::from("/tmp/a.png")));
    assert_eq!(drop_batch, vec![Action::ForwardAccessibilityEvent]);
    assert_eq!(renderer.dropped_file_path, Some(String::from("/tmp/a.png")));

    let move_batch = renderer.window_event(WindowEvent::CursorMoved { x: 10, y: 20 });
    let file_drops: Vec<&Action> = move_batch
        .iter()
        .filter(|a| {
            matches!(
                a,
                Action::SendPlatformEvent {
                    event: PlatformEvent::File { name: EventName::FileDrop, .. },
                    ..
                }
            )
        })
        .collect();
    assert_eq!(file_drops.len(), 1);
    assert_eq!(
        *file_drops[0],
        Action::SendPlatformEvent {
            event: PlatformEvent::File {
                name: EventName::FileDrop,
                file_path: Some(String::from("/tmp/a.png")),
                cursor: CursorPoint { x: 10, y: 20 },
            },
            scale_factor: 1000,
        }
    );
    assert_eq!(renderer.dropped_file_path, None);
}

#[test]
fn cursor_move_without_drop_produces_no_file_notification() {
    let mut renderer = active_renderer(800, 600);
    let move_batch = renderer.window_event(WindowEvent::CursorMoved { x: 10, y: 20 });
    assert!(move_batch.iter().all(|a| {
        !matches!(
            a,
            Action::SendPlatformEvent {
                event: PlatformEvent::File { name: EventName::FileDrop, .. },
                ..
            }
        )
    }));
    assert_eq!(renderer.cursor_pos, CursorPoint { x: 10, y: 20 });
}

#[test]
fn cursor_left_reports_off_surface_sentinel() {
    let mut renderer = active_renderer(800, 600);
    renderer.window_event(WindowEvent::CursorMoved { x: 10, y: 20 });
    let batch = renderer.window_event(WindowEvent::CursorLeft);
    assert_eq!(renderer.cursor_pos, CursorPoint { x: -1, y: -1 });
    assert_eq!(
        batch[1],
        Action::SendPlatformEvent {
            event: PlatformEvent::Mouse {
                name: EventName::MouseOver,
                cursor: CursorPoint { x: -1, y: -1 },
                button: None,
            },
            scale_factor: 1000,
        }
    );
}

#[test]
fn mouse_release_names_click_by_button() {
    let mut renderer = active_renderer(800, 600);
    let cases = [
        (ElementState::Pressed, MouseButton::Left, EventName::MouseDown),
        (ElementState::Released, MouseButton::Left, EventName::Click),
        (ElementState::Released, MouseButton::Right, EventName::RightClick),
        (ElementState::Released, MouseButton::Middle, EventName::MiddleClick),
        (ElementState::Released, MouseButton::Other, EventName::PointerUp),
    ];
    for (state, button, expected) in cases {
        let batch = renderer.window_event(WindowEvent::MouseInput { state, button });
        assert_eq!(
            batch[1],
            Action::SendPlatformEvent {
                event: PlatformEvent::Mouse {
                    name: expected,
                    cursor: renderer.cursor_pos,
                    button: Some(button),
                },
                scale_factor: 1000,
            }
        );
        assert_eq!(created(&renderer).app.navigation_mode, NavigationMode::NotKeyboard);
    }
}

#[test]
fn wheel_scrolls_only_while_moving() {
    let mut renderer = active_renderer(800, 600);
    let moved = renderer.window_event(WindowEvent::MouseWheel {
        delta: CursorPoint { x: 0, y: -53 },
        phase: TouchPhase::Moved,
    });
    assert_eq!(
        moved[1],
        Action::SendPlatformEvent {
            event: PlatformEvent::Wheel {
                name: EventName::Wheel,
                scroll: CursorPoint { x: 0, y: -53 },
                cursor: CursorPoint { x: 0, y: 0 },
            },
            scale_factor: 1000,
        }
    );
    let ended = renderer.window_event(WindowEvent::MouseWheel {
        delta: CursorPoint { x: 0, y: -53 },
        phase: TouchPhase::Ended,
    });
    assert_eq!(ended, vec![Action::ForwardAccessibilityEvent]);
}

#[test]
fn modifiers_are_stored_and_tag_keyboard_events() {
    let mut renderer = active_renderer(800, 600);
    let shift = NativeModifiers { shift: true, control: false, alt: false, meta: false };
    let batch = renderer.window_event(WindowEvent::ModifiersChanged(shift));
    assert_eq!(batch, vec![Action::ForwardAccessibilityEvent]);
    assert_eq!(renderer.modifiers_state, shift);

    let ime = renderer.window_event(WindowEvent::ImeCommit(String::from("q")));
    match &ime[1] {
        Action::SendPlatformEvent {
            event: PlatformEvent::Keyboard { name, modifiers, .. },
            ..
        } => {
            assert_eq!(*name, EventName::KeyDown);
            assert_eq!(
                *modifiers,
                Modifiers { shift: true, control: false, alt: false, meta: false }
            );
        }
        other => panic!("expected a keyboard event, got {other:?}"),
    }
}

#[test]
fn touch_tracks_cursor_and_names_phase() {
    let mut renderer = active_renderer(800, 600);
    let batch = renderer.window_event(WindowEvent::Touch {
        x: 5,
        y: 6,
        phase: TouchPhase::Started,
        finger_id: 2,
        force: Some(500),
    });
    assert_eq!(renderer.cursor_pos, CursorPoint { x: 5, y: 6 });
    assert_eq!(
        batch[1],
        Action::SendPlatformEvent {
            event: PlatformEvent::Touch {
                name: EventName::TouchStart,
                location: CursorPoint { x: 5, y: 6 },
                finger_id: 2,
                phase: TouchPhase::Started,
                force: Some(500),
            },
            scale_factor: 1000,
        }
    );
}

#[test]
fn close_drops_queued_messages() {
    let mut renderer = active_renderer(800, 600);
    let queue = vec![
        Incoming::Window(WindowEvent::CursorMoved { x: 1, y: 1 }),
        Incoming::Window(WindowEvent::CloseRequested),
        Incoming::User(EventMessage::PollVDOM),
        Incoming::User(EventMessage::RequestRerender),
        Incoming::User(EventMessage::UpdateTemplate(1)),
    ];
    let (actions, dispatched) = renderer.drain_events(queue);
    assert_eq!(dispatched, 2);
    assert_eq!(actions.last(), Some(&Action::Exit));
    // nothing of the three queued messages was dispatched
    assert!(!actions.contains(&Action::PollVdom));
    assert!(!actions.contains(&Action::RequestRedraw));
    assert!(!actions.contains(&Action::ApplyTemplate(1)));
}

#[test]
fn drain_without_close_processes_everything_in_order() {
    let mut renderer = active_renderer(800, 600);
    let queue = vec![
        Incoming::User(EventMessage::UpdateTemplate(9)),
        Incoming::User(EventMessage::RequestRerender),
    ];
    let (actions, dispatched) = renderer.drain_events(queue);
    assert_eq!(dispatched, 2);
    assert_eq!(
        actions,
        vec![Action::ApplyTemplate(9), Action::PollVdom, Action::RequestRedraw]
    );
}

#[test]
fn hovered_file_notifies_at_cursor() {
    let mut renderer = active_renderer(800, 600);
    renderer.window_event(WindowEvent::CursorMoved { x: 3, y: 4 });
    let hover = renderer.window_event(WindowEvent::HoveredFile(String::from("b.txt")));
    assert_eq!(
        hover[1],
        Action::SendPlatformEvent {
            event: PlatformEvent::File {
                name: EventName::GlobalFileHover,
                file_path: Some(String::from("b.txt")),
                cursor: CursorPoint { x: 3, y: 4 },
            },
            scale_factor: 1000,
        }
    );
    let cancelled = renderer.window_event(WindowEvent::HoveredFileCancelled);
    assert_eq!(
        cancelled[1],
        Action::SendPlatformEvent {
            event: PlatformEvent::File {
                name: EventName::GlobalFileHoverCancelled,
                file_path: None,
                cursor: CursorPoint { x: 3, y: 4 },
            },
            scale_factor: 1000,
        }
    );
}

#[test]
fn close_request_emits_exit_only() {
    let mut renderer = active_renderer(800, 600);
    let batch = renderer.window_event(WindowEvent::CloseRequested);
    assert_eq!(batch, vec![Action::ForwardAccessibilityEvent, Action::Exit]);
}
