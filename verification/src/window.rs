//! The window lifecycle controller: the top-level state machine over the
//! native window, the GPU surface and the embedded application.
//!
//! The controller answers three categories of messages — lifecycle
//! callbacks, custom wake-up messages and raw window events — by updating
//! its own state and returning the ordered list of [`Action`]s the
//! platform embedding must perform. The transition each handler takes is
//! stated by a spec function beside it, and the handler's contract is
//! equality with that spec.

use vstd::prelude::*;

use crate::accessibility::AccessibilityBridge;
use crate::accessibility::AccessibilityFocusDirection;
use crate::accessibility::NavigationMode;
use crate::accessibility::spec_navigate;
use crate::app::Application;
use crate::config::WindowConfig;
use crate::events::AccessibilityAction;
use crate::events::AccessibilityWindowEvent;
use crate::events::Action;
use crate::events::CursorPoint;
use crate::events::ElementState;
use crate::events::EventMessage;
use crate::events::EventName;
use crate::events::MouseButton;
use crate::events::PlatformEvent;
use crate::events::StartCause;
use crate::events::TouchPhase;
use crate::events::WindowEvent;
use crate::gpu::MAX_SURFACE_DIM;
use crate::gpu::Surface;
use crate::input::Code;
use crate::input::Key;
use crate::input::NativeModifiers;
use crate::input::spec_translate_key;
use crate::input::spec_translate_modifiers;
use crate::input::spec_translate_physical_key;
use crate::input::translate_key;
use crate::input::translate_modifiers;
use crate::input::translate_physical_key;
use vstd::pervasive::unreached;

verus! {

/// The native window's attributes as the controller reads them. The scale
/// factor is in thousandths (`1000` is one physical pixel per logical
/// pixel).
#[derive(Debug, Clone, Copy, PartialEq, Eq, Structural)]
pub struct NativeWindow {
    pub width: u32,
    pub height: u32,
    pub scale_factor: u32,
    pub ime_allowed: bool,
    pub visible: bool,
}

/// The deferred construction inputs held until the first lifecycle
/// `resume` signal. The engine handle and the cross-thread notification
/// handle stay with the embedding; the controller defers only the
/// configuration.
#[derive(Debug, Clone, PartialEq, Eq)]
pub struct NotCreatedState {
    pub config: WindowConfig,
}

/// The live resources of an active window, as the controller tracks them.
/// The native GPU objects themselves stay with the embedding; their
/// decision-relevant attributes are here.
#[derive(Debug, Clone, PartialEq, Eq)]
pub struct CreatedState {
    /// The drawing surface. Its pixel size always equals the window's
    /// physical size.
    pub surface: Surface,
    /// The presentation surface; never below one pixel per side.
    pub gl_surface: Surface,
    pub window: NativeWindow,
    pub window_config: WindowConfig,
    pub num_samples: u8,
    pub stencil_size: u8,
    pub app: Application,
}

/// The lifecycle state machine. `NotCreated` becomes `Created` exactly
/// once, on the first `resume` signal; there is no way back. `Empty` is
/// the placeholder left while the state is moved out during that
/// transition; finding it in a handler is a control-flow bug, excluded by
/// the handlers' preconditions.
#[derive(Debug, Clone, PartialEq, Eq)]
pub enum WindowState {
    Empty,
    NotCreated(NotCreatedState),
    Created(CreatedState),
}

impl Default for WindowState {
    fn default() -> (r: Self)
        ensures
            r is Empty,
    {
        WindowState::Empty
    }
}

impl WindowState {
    /// The live window resources. Asking for them in any other lifecycle
    /// state is a control-flow bug, so that state is excluded outright.
    pub fn created_state(&mut self) -> (r: &mut CreatedState)
        requires
            *old(self) is Created,
        ensures
            *r == old(self)->Created_0,
            *final(self) == WindowState::Created(*final(r)),
    {
        match self {
            WindowState::Created(created) => created,
            _ => unreached(),
        }
    }

    /// The deferred construction inputs, consumed by move on the
    /// `NotCreated` to `Created` transition. Asking for them in any other
    /// state is a control-flow bug, so that state is excluded outright.
    pub fn not_created_state(self) -> (r: NotCreatedState)
        requires
            self is NotCreated,
        ensures
            r == self->NotCreated_0,
    {
        match self {
            WindowState::NotCreated(not_created) => not_created,
            _ => unreached(),
        }
    }

    /// The embedded application of the live window. Asking for it in any
    /// other lifecycle state is a control-flow bug, so that state is
    /// excluded outright.
    pub fn app(&mut self) -> (r: &mut Application)
        requires
            *old(self) is Created,
        ensures
            *r == old(self)->Created_0.app,
            *final(self) == WindowState::Created(
                CreatedState { app: *final(r), ..old(self)->Created_0 },
            ),
    {
        match self {
            WindowState::Created(created) => &mut created.app,
            _ => unreached(),
        }
    }
}

/// The native resources the embedding acquired while creating the window
/// and the GPU context, handed to [`DesktopRenderer::resumed`] to build
/// the active state.
#[derive(Debug, Clone, Copy, PartialEq, Eq, Structural)]
pub struct ResumeResources {
    pub window_width: u32,
    pub window_height: u32,
    /// In thousandths, as in [`NativeWindow`].
    pub scale_factor: u32,
    pub num_samples: u8,
    pub stencil_size: u8,
}

/// Manager for a window: the lifecycle state plus the input bookkeeping
/// the dispatch rules read — last cursor position, held modifiers, and a
/// dropped file path waiting to be paired with the next cursor move.
#[derive(Debug, Clone, PartialEq, Eq)]
pub struct DesktopRenderer {
    pub state: WindowState,
    /// The transient pointer-hover highlight the embedding supplies.
    pub hovered_node: Option<u64>,
    pub cursor_pos: CursorPoint,
    pub modifiers_state: NativeModifiers,
    pub dropped_file_path: Option<String>,
}

/// The scale factor the controller reports: the window's while one
/// exists, zero otherwise.
pub open spec fn spec_scale_factor(r: DesktopRenderer) -> u32 {
    match r.state {
        WindowState::Created(created) => created.window.scale_factor,
        _ => 0,
    }
}

/// The action that delivers one abstract input event to the embedded
/// application, tagged with the current scale factor.
pub open spec fn spec_send_event(r: DesktopRenderer, event: PlatformEvent) -> Action {
    Action::SendPlatformEvent { event, scale_factor: spec_scale_factor(r) }
}

/// A dimension clamped to the presentation surface's minimum of one
/// pixel.
pub open spec fn spec_at_least_one(dim: u32) -> u32 {
    if dim == 0 {
        1
    } else {
        dim
    }
}

/// The abstract event name of a pointer-button event: every press is a
/// "mouse down"; a release names the click by its button.
pub open spec fn spec_mouse_event_name(state: ElementState, button: MouseButton) -> EventName {
    match state {
        ElementState::Pressed => EventName::MouseDown,
        ElementState::Released => match button {
            MouseButton::Middle => EventName::MiddleClick,
            MouseButton::Right => EventName::RightClick,
            MouseButton::Left => EventName::Click,
            MouseButton::Other => EventName::PointerUp,
        },
    }
}

/// The abstract event name of a touch event, by its phase.
pub open spec fn spec_touch_event_name(phase: TouchPhase) -> EventName {
    match phase {
        TouchPhase::Cancelled => EventName::TouchCancel,
        TouchPhase::Ended => EventName::TouchEnd,
        TouchPhase::Moved => EventName::TouchMove,
        TouchPhase::Started => EventName::TouchStart,
    }
}

impl DesktopRenderer {
    /// The renderer with this state update applied under `Created`.
    pub open spec fn spec_with_created(self, created: CreatedState) -> DesktopRenderer {
        DesktopRenderer { state: WindowState::Created(created), ..self }
    }

    /// The renderer with the embedded application replaced.
    pub open spec fn spec_with_app(self, app: Application) -> DesktopRenderer
        recommends
            self.state is Created,
    {
        self.spec_with_created(CreatedState { app, ..self.state->Created_0 })
    }
}

/// The state after a custom message: a message arriving before the window
/// exists is an invalid transition and leaves the state untouched; while
/// active, focus requests and navigation move the accessibility focus,
/// text remeasurement invalidates layout, and the first initial-tree
/// request is marked handed off.
pub open spec fn spec_user_event_state(r: DesktopRenderer, event: EventMessage) -> DesktopRenderer {
    if !(r.state is Created) {
        r
    } else {
        let created = r.state->Created_0;
        let app = created.app;
        match event {
            EventMessage::FocusAccessibilityNode(id) => r.spec_with_app(
                Application {
                    accessibility: AccessibilityBridge {
                        focused_node: Some(id),
                        ..app.accessibility
                    },
                    ..app
                },
            ),
            EventMessage::Accessibility(ev) => match ev {
                AccessibilityWindowEvent::ActionRequested { action, target } => {
                    if action == AccessibilityAction::Focus {
                        r.spec_with_app(
                            Application {
                                accessibility: AccessibilityBridge {
                                    focused_node: Some(target),
                                    ..app.accessibility
                                },
                                ..app
                            },
                        )
                    } else {
                        r
                    }
                },
                AccessibilityWindowEvent::InitialTreeRequested => r.spec_with_app(
                    Application {
                        accessibility: AccessibilityBridge {
                            initial_tree_sent: true,
                            ..app.accessibility
                        },
                        ..app
                    },
                ),
                AccessibilityWindowEvent::Deactivated => r,
            },
            EventMessage::RemeasureTextGroup(_) => r.spec_with_app(
                Application { measure_layout_on_next_render: true, ..app },
            ),
            EventMessage::FocusNextAccessibilityNode => r.spec_with_app(
                Application {
                    navigation_mode: NavigationMode::Keyboard,
                    accessibility: AccessibilityBridge {
                        focused_node: spec_navigate(
                            app.accessibility.focusable_nodes@,
                            app.accessibility.focused_node,
                            AccessibilityFocusDirection::Forward,
                        ),
                        ..app.accessibility
                    },
                    ..app
                },
            ),
            EventMessage::FocusPrevAccessibilityNode => r.spec_with_app(
                Application {
                    navigation_mode: NavigationMode::Keyboard,
                    accessibility: AccessibilityBridge {
                        focused_node: spec_navigate(
                            app.accessibility.focusable_nodes@,
                            app.accessibility.focused_node,
                            AccessibilityFocusDirection::Backward,
                        ),
                        ..app.accessibility
                    },
                    ..app
                },
            ),
            _ => r,
        }
    }
}

/// The actions a custom message asks of the embedding. A message arriving
/// before the window exists is ignored without fault and asks nothing. A
/// template update applies the template and then polls the reconciliation
/// engine, exactly once, in that order.
pub open spec fn spec_user_event_actions(r: DesktopRenderer, event: EventMessage) -> Seq<Action> {
    if !(r.state is Created) {
        Seq::<Action>::empty()
    } else {
        let created = r.state->Created_0;
        match event {
            EventMessage::UpdateTemplate(template) => seq![
                Action::ApplyTemplate(template),
                Action::PollVdom,
            ],
            EventMessage::PollVDOM => seq![Action::PollVdom],
            EventMessage::RequestRerender => seq![Action::RequestRedraw],
            EventMessage::RemeasureTextGroup(id) => seq![
                Action::RemeasureTextGroup { id, scale_factor: spec_scale_factor(r) },
            ],
            EventMessage::SetCursorIcon(icon) => seq![Action::SetCursorIcon(icon)],
            EventMessage::Accessibility(ev) => match ev {
                AccessibilityWindowEvent::ActionRequested { action, target } => {
                    if action == AccessibilityAction::Focus {
                        seq![Action::SetAccessibilityFocus(target)]
                    } else {
                        Seq::<Action>::empty()
                    }
                },
                AccessibilityWindowEvent::InitialTreeRequested => {
                    if !created.app.accessibility.initial_tree_sent {
                        seq![Action::SendInitialAccessibilityTree]
                    } else {
                        Seq::<Action>::empty()
                    }
                },
                AccessibilityWindowEvent::Deactivated => Seq::<Action>::empty(),
            },
            EventMessage::FocusAccessibilityNode(id) => seq![Action::SetAccessibilityFocus(id)],
            EventMessage::FocusNextAccessibilityNode => {
                match spec_navigate(
                    created.app.accessibility.focusable_nodes@,
                    created.app.accessibility.focused_node,
                    AccessibilityFocusDirection::Forward,
                ) {
                    Some(id) => seq![Action::SetAccessibilityFocus(id)],
                    None => Seq::<Action>::empty(),
                }
            },
            EventMessage::FocusPrevAccessibilityNode => {
                match spec_navigate(
                    created.app.accessibility.focusable_nodes@,
                    created.app.accessibility.focused_node,
                    AccessibilityFocusDirection::Backward,
                ) {
                    Some(id) => seq![Action::SetAccessibilityFocus(id)],
                    None => Seq::<Action>::empty(),
                }
            },
        }
    }
}

/// The state after a raw window event, for an active window: resize puts
/// the surfaces and the tracked window size in lockstep with the new size
/// and invalidates layout; a redraw clears the layout-invalidation flag;
/// cursor events track the cursor; a dropped file is stored until the
/// next cursor move consumes it; pointer input leaves keyboard navigation
/// mode.
pub open spec fn spec_window_event_state(r: DesktopRenderer, event: WindowEvent) -> DesktopRenderer
    recommends
        r.state is Created,
{
    let created = r.state->Created_0;
    let app = created.app;
    match event {
        WindowEvent::RedrawRequested => r.spec_with_app(
            Application { measure_layout_on_next_render: false, ..app },
        ),
        WindowEvent::MouseInput { .. } => r.spec_with_app(
            Application { navigation_mode: NavigationMode::NotKeyboard, ..app },
        ),
        WindowEvent::ModifiersChanged(modifiers) => DesktopRenderer {
            modifiers_state: modifiers,
            ..r
        },
        WindowEvent::CursorLeft => DesktopRenderer {
            cursor_pos: CursorPoint { x: -1i64, y: -1i64 },
            ..r
        },
        WindowEvent::CursorMoved { x, y } => DesktopRenderer {
            cursor_pos: CursorPoint { x, y },
            dropped_file_path: None,
            ..r
        },
        WindowEvent::Touch { x, y, .. } => DesktopRenderer {
            cursor_pos: CursorPoint { x, y },
            ..r
        },
        WindowEvent::Resized { width, height } => r.spec_with_created(
            CreatedState {
                surface: Surface { width, height },
                gl_surface: Surface {
                    width: spec_at_least_one(width),
                    height: spec_at_least_one(height),
                },
                window: NativeWindow { width, height, ..created.window },
                app: Application { measure_layout_on_next_render: true, ..app },
                ..created
            },
        ),
        WindowEvent::DroppedFile(path) => DesktopRenderer {
            dropped_file_path: Some(path),
            ..r
        },
        _ => r,
    }
}

/// The actions a raw window event asks of the embedding. Every event is
/// forwarded to the accessibility adapter first. A close request ends the
/// loop. A redraw recomputes layout first if it was invalidated, then
/// clears, paints, ticks the deferred-work queue, announces presentation
/// and presents — in that order. A resize regenerates both surfaces at
/// the new size, requests a redraw and notifies the application once.
/// Input events are translated and delivered with the current cursor
/// position and modifiers; a cursor move additionally delivers the
/// pending file-drop, if one was stored, at the move's position.
pub open spec fn spec_window_event_actions(r: DesktopRenderer, event: WindowEvent) -> Seq<Action>
    recommends
        r.state is Created,
{
    let created = r.state->Created_0;
    let forward = seq![Action::ForwardAccessibilityEvent];
    match event {
        WindowEvent::CloseRequested => forward + seq![Action::Exit],
        WindowEvent::ImeCommit(text) => forward + seq![
            spec_send_event(
                r,
                PlatformEvent::Keyboard {
                    name: EventName::KeyDown,
                    key: Key::Character(text),
                    code: Code::Unidentified,
                    modifiers: spec_translate_modifiers(r.modifiers_state),
                },
            ),
        ],
        WindowEvent::RedrawRequested => forward + (
            if created.app.measure_layout_on_next_render {
                seq![
                    Action::ComputeLayout {
                        width: created.window.width,
                        height: created.window.height,
                        scale_factor: created.window.scale_factor,
                    },
                ]
            } else {
                Seq::<Action>::empty()
            }
        ) + seq![
            Action::ClearSurface { background: created.window_config.background },
            Action::Render {
                width: created.surface.width,
                height: created.surface.height,
                hovered_node: r.hovered_node,
            },
            Action::RunDeferredTasks,
            Action::PrePresentNotify,
            Action::Present,
        ],
        WindowEvent::MouseInput { state, button } => forward + seq![
            spec_send_event(
                r,
                PlatformEvent::Mouse {
                    name: spec_mouse_event_name(state, button),
                    cursor: r.cursor_pos,
                    button: Some(button),
                },
            ),
        ],
        WindowEvent::MouseWheel { delta, phase } => {
            if phase == TouchPhase::Moved {
                forward + seq![
                    spec_send_event(
                        r,
                        PlatformEvent::Wheel {
                            name: EventName::Wheel,
                            scroll: delta,
                            cursor: r.cursor_pos,
                        },
                    ),
                ]
            } else {
                forward
            }
        },
        WindowEvent::KeyboardInput { physical_key, logical_key, state } => forward + seq![
            spec_send_event(
                r,
                PlatformEvent::Keyboard {
                    name: match state {
                        ElementState::Pressed => EventName::KeyDown,
                        ElementState::Released => EventName::KeyUp,
                    },
                    key: spec_translate_key(logical_key),
                    code: spec_translate_physical_key(physical_key),
                    modifiers: spec_translate_modifiers(r.modifiers_state),
                },
            ),
        ],
        WindowEvent::CursorLeft => forward + seq![
            spec_send_event(
                r,
                PlatformEvent::Mouse {
                    name: EventName::MouseOver,
                    cursor: CursorPoint { x: -1i64, y: -1i64 },
                    button: None,
                },
            ),
        ],
        WindowEvent::CursorMoved { x, y } => forward + seq![
            spec_send_event(
                r,
                PlatformEvent::Mouse {
                    name: EventName::MouseOver,
                    cursor: CursorPoint { x, y },
                    button: None,
                },
            ),
        ] + (
            match r.dropped_file_path {
                Some(path) => seq![
                    spec_send_event(
                        r,
                        PlatformEvent::File {
                            name: EventName::FileDrop,
                            file_path: Some(path),
                            cursor: CursorPoint { x, y },
                        },
                    ),
                ],
                None => Seq::<Action>::empty(),
            }
        ),
        WindowEvent::Touch { x, y, phase, finger_id, force } => forward + seq![
            spec_send_event(
                r,
                PlatformEvent::Touch {
                    name: spec_touch_event_name(phase),
                    location: CursorPoint { x, y },
                    finger_id,
                    phase,
                    force,
                },
            ),
        ],
        WindowEvent::Resized { width, height } => forward + seq![
            Action::RecreateSurface { width, height },
            Action::ResizeGlSurface {
                width: spec_at_least_one(width),
                height: spec_at_least_one(height),
            },
            Action::RequestRedraw,
            Action::NotifyAppResize { width, height },
        ],
        WindowEvent::HoveredFile(path) => forward + seq![
            spec_send_event(
                r,
                PlatformEvent::File {
                    name: EventName::GlobalFileHover,
                    file_path: Some(path),
                    cursor: r.cursor_pos,
                },
            ),
        ],
        WindowEvent::HoveredFileCancelled => forward + seq![
            spec_send_event(
                r,
                PlatformEvent::File {
                    name: EventName::GlobalFileHoverCancelled,
                    file_path: None,
                    cursor: r.cursor_pos,
                },
            ),
        ],
        _ => forward,
    }
}

impl DesktopRenderer {
    /// A renderer waiting for the first lifecycle `resume` signal:
    /// deferred configuration, cursor at the origin, no modifiers held,
    /// no dropped file pending.
    pub fn new(config: WindowConfig, hovered_node: Option<u64>) -> (r: DesktopRenderer)
        ensures
            r == (DesktopRenderer {
                state: WindowState::NotCreated(NotCreatedState { config }),
                hovered_node,
                cursor_pos: CursorPoint { x: 0i64, y: 0i64 },
                modifiers_state: NativeModifiers {
                    shift: false,
                    control: false,
                    alt: false,
                    meta: false,
                },
                dropped_file_path: None,
            }),
    {
        DesktopRenderer {
            state: WindowState::NotCreated(NotCreatedState { config }),
            hovered_node,
            cursor_pos: CursorPoint { x: 0i64, y: 0i64 },
            modifiers_state: NativeModifiers::empty(),
            dropped_file_path: None,
        }
    }

    /// The scale factor reported to the embedded application: the
    /// window's while one exists, zero otherwise.
    pub fn scale_factor(&self) -> (r: u32)
        ensures
            r == spec_scale_factor(*self),
    {
        match &self.state {
            WindowState::Created(created) => created.window.scale_factor,
            _ => 0,
        }
    }

    /// The lifecycle `resume` signal. On the first one the deferred state
    /// becomes the active window state, exactly once: the tracked surfaces
    /// take the window's size, the stored configuration gives up the icon
    /// the window attributes consumed, and the embedding is asked — in
    /// order — to enable text composition, show the window, construct the
    /// embedded application, run the initial layout pass at the window's
    /// size and scale, and try to enable a synchronized presentation
    /// interval. A repeated `resume` on an active window only retries the
    /// presentation interval.
    pub fn resumed(&mut self, resources: ResumeResources) -> (res: Vec<Action>)
        requires
            !(old(self).state is Empty),
            old(self).state is NotCreated ==> {
                &&& 1 <= resources.window_width <= MAX_SURFACE_DIM
                &&& 1 <= resources.window_height <= MAX_SURFACE_DIM
            },
        ensures
            old(self).state is Created ==> {
                &&& *final(self) == *old(self)
                &&& res@ == seq![Action::TrySetVsync]
            },
            old(self).state is NotCreated ==> {
                &&& *final(self) == (DesktopRenderer {
                    state: WindowState::Created(CreatedState {
                        surface: Surface {
                            width: resources.window_width,
                            height: resources.window_height,
                        },
                        gl_surface: Surface {
                            width: resources.window_width,
                            height: resources.window_height,
                        },
                        window: NativeWindow {
                            width: resources.window_width,
                            height: resources.window_height,
                            scale_factor: resources.scale_factor,
                            ime_allowed: true,
                            visible: true,
                        },
                        window_config: WindowConfig {
                            icon: None,
                            ..old(self).state->NotCreated_0.config
                        },
                        num_samples: resources.num_samples,
                        stencil_size: resources.stencil_size,
                        app: final(self).state->Created_0.app,
                    }),
                    ..*old(self)
                })
                &&& final(self).state->Created_0.app.accessibility.focused_node is None
                &&& final(self).state->Created_0.app.accessibility.focusable_nodes@
                    == Seq::<u64>::empty()
                &&& !final(self).state->Created_0.app.accessibility.initial_tree_sent
                &&& final(self).state->Created_0.app.navigation_mode == NavigationMode::NotKeyboard
                &&& !final(self).state->Created_0.app.measure_layout_on_next_render
                &&& res@ == seq![
                    Action::AllowIme,
                    Action::ShowWindow,
                    Action::InitApp { scale_factor: resources.scale_factor },
                    Action::ComputeLayout {
                        width: resources.window_width,
                        height: resources.window_height,
                        scale_factor: resources.scale_factor,
                    },
                    Action::TrySetVsync,
                ]
            },
    {
        let mut actions: Vec<Action> = Vec::new();
        if matches!(&self.state, WindowState::NotCreated(_)) {
            let mut taken = WindowState::Empty;
            core::mem::swap(&mut taken, &mut self.state);
            let not_created = taken.not_created_state();
            let mut window_config = not_created.config;
            // The window attributes consumed the icon when they were built.
            window_config.icon = None;
            self.state = WindowState::Created(CreatedState {
                surface: Surface::create(resources.window_width, resources.window_height),
                gl_surface: Surface {
                    width: resources.window_width,
                    height: resources.window_height,
                },
                window: NativeWindow {
                    width: resources.window_width,
                    height: resources.window_height,
                    scale_factor: resources.scale_factor,
                    ime_allowed: true,
                    visible: true,
                },
                window_config,
                num_samples: resources.num_samples,
                stencil_size: resources.stencil_size,
                app: Application::new(),
            });
            actions.push(Action::AllowIme);
            actions.push(Action::ShowWindow);
            actions.push(Action::InitApp { scale_factor: resources.scale_factor });
            actions.push(Action::ComputeLayout {
                width: resources.window_width,
                height: resources.window_height,
                scale_factor: resources.scale_factor,
            });
        }
        actions.push(Action::TrySetVsync);
        proof {
            if old(self).state is Created {
                assert(actions@ =~= seq![Action::TrySetVsync]);
            } else {
                assert(actions@ =~= seq![
                    Action::AllowIme,
                    Action::ShowWindow,
                    Action::InitApp { scale_factor: resources.scale_factor },
                    Action::ComputeLayout {
                        width: resources.window_width,
                        height: resources.window_height,
                        scale_factor: resources.scale_factor,
                    },
                    Action::TrySetVsync,
                ]);
            }
        }
        actions
    }

    /// The loop's iteration-start callback: the very first iteration
    /// enqueues one poll of the reconciliation engine, kick-starting the
    /// first render; every later cause asks nothing.
    pub fn new_events(&mut self, cause: StartCause) -> (res: Vec<Action>)
        ensures
            *final(self) == *old(self),
            res@ == if cause == StartCause::Init {
                seq![Action::EnqueueMessage(EventMessage::PollVDOM)]
            } else {
                Seq::<Action>::empty()
            },
    {
        let mut actions: Vec<Action> = Vec::new();
        if matches!(cause, StartCause::Init) {
            actions.push(Action::EnqueueMessage(EventMessage::PollVDOM));
        }
        proof {
            if cause == StartCause::Init {
                assert(actions@ =~= seq![Action::EnqueueMessage(EventMessage::PollVDOM)]);
            } else {
                assert(actions@ =~= Seq::<Action>::empty());
            }
        }
        actions
    }

    /// Dispatches one custom message. A message arriving before the first
    /// `resume` signal is an invalid transition: it is ignored without
    /// fault — nothing is dispatched and nothing changes.
    pub fn user_event(&mut self, event: EventMessage) -> (res: Vec<Action>)
        ensures
            *final(self) == spec_user_event_state(*old(self), event),
            res@ == spec_user_event_actions(*old(self), event),
    {
        let mut actions: Vec<Action> = Vec::new();
        let scale_factor = self.scale_factor();
        match &mut self.state {
            WindowState::Created(created) => {
                match event {
                    EventMessage::FocusAccessibilityNode(id) => {
                        created.app.accessibility.set_focus(id);
                        actions.push(Action::SetAccessibilityFocus(id));
                    },
                    EventMessage::RequestRerender => {
                        actions.push(Action::RequestRedraw);
                    },
                    EventMessage::RemeasureTextGroup(id) => {
                        created.app.measure_text_group();
                        actions.push(Action::RemeasureTextGroup { id, scale_factor });
                    },
                    EventMessage::Accessibility(
                        AccessibilityWindowEvent::ActionRequested { action, target },
                    ) => {
                        if matches!(action, AccessibilityAction::Focus) {
                            created.app.accessibility.set_focus(target);
                            actions.push(Action::SetAccessibilityFocus(target));
                        }
                    },
                    EventMessage::Accessibility(
                        AccessibilityWindowEvent::InitialTreeRequested,
                    ) => {
                        let send = created.app.accessibility.process_initial_tree();
                        if send {
                            actions.push(Action::SendInitialAccessibilityTree);
                        }
                    },
                    EventMessage::Accessibility(AccessibilityWindowEvent::Deactivated) => {},
                    EventMessage::SetCursorIcon(icon) => {
                        actions.push(Action::SetCursorIcon(icon));
                    },
                    EventMessage::FocusPrevAccessibilityNode => {
                        created.app.set_navigation_mode(NavigationMode::Keyboard);
                        let focused = created.app.focus_next_node(
                            AccessibilityFocusDirection::Backward,
                        );
                        if let Some(id) = focused {
                            actions.push(Action::SetAccessibilityFocus(id));
                        }
                    },
                    EventMessage::FocusNextAccessibilityNode => {
                        created.app.set_navigation_mode(NavigationMode::Keyboard);
                        let focused = created.app.focus_next_node(
                            AccessibilityFocusDirection::Forward,
                        );
                        if let Some(id) = focused {
                            actions.push(Action::SetAccessibilityFocus(id));
                        }
                    },
                    EventMessage::UpdateTemplate(template) => {
                        actions.push(Action::ApplyTemplate(template));
                        actions.push(Action::PollVdom);
                    },
                    EventMessage::PollVDOM => {
                        actions.push(Action::PollVdom);
                    },
                }
            },
            _ => {},
        }
        proof {
            assert(actions@ =~= spec_user_event_actions(*old(self), event));
        }
        actions
    }

    /// Dispatches one raw window event of an active window, forwarding it
    /// to the accessibility adapter before anything else. The resize bound
    /// is the GPU layer's machine limit on render-target sizes.
    pub fn window_event(&mut self, event: WindowEvent) -> (res: Vec<Action>)
        requires
            old(self).state is Created,
            event matches WindowEvent::Resized { width, height } ==> {
                &&& width <= MAX_SURFACE_DIM
                &&& height <= MAX_SURFACE_DIM
            },
        ensures
            final(self).state is Created,
            *final(self) == spec_window_event_state(*old(self), event),
            res@ == spec_window_event_actions(*old(self), event),
    {
        let ghost event0 = event;
        let mut actions: Vec<Action> = Vec::new();
        let scale_factor = self.scale_factor();
        actions.push(Action::ForwardAccessibilityEvent);
        match event {
            WindowEvent::CloseRequested => {
                actions.push(Action::Exit);
            },
            WindowEvent::ImeCommit(text) => {
                let modifiers = translate_modifiers(self.modifiers_state);
                actions.push(Action::SendPlatformEvent {
                    event: PlatformEvent::Keyboard {
                        name: EventName::KeyDown,
                        key: Key::Character(text),
                        code: Code::Unidentified,
                        modifiers,
                    },
                    scale_factor,
                });
            },
            WindowEvent::RedrawRequested => {
                match &mut self.state {
                    WindowState::Created(created) => {
                        if created.app.measure_layout_on_next_render {
                            actions.push(Action::ComputeLayout {
                                width: created.window.width,
                                height: created.window.height,
                                scale_factor: created.window.scale_factor,
                            });
                            created.app.measure_layout_on_next_render = false;
                        }
                        actions.push(Action::ClearSurface {
                            background: created.window_config.background,
                        });
                        actions.push(Action::Render {
                            width: created.surface.width,
                            height: created.surface.height,
                            hovered_node: self.hovered_node,
                        });
                        actions.push(Action::RunDeferredTasks);
                        actions.push(Action::PrePresentNotify);
                        actions.push(Action::Present);
                    },
                    _ => {
                        proof {
                            assert(false);
                        }
                    },
                }
            },
            WindowEvent::MouseInput { state, button } => {
                match &mut self.state {
                    WindowState::Created(created) => {
                        created.app.set_navigation_mode(NavigationMode::NotKeyboard);
                    },
                    _ => {
                        proof {
                            assert(false);
                        }
                    },
                }
                let name = match state {
                    ElementState::Pressed => EventName::MouseDown,
                    ElementState::Released => match button {
                        MouseButton::Middle => EventName::MiddleClick,
                        MouseButton::Right => EventName::RightClick,
                        MouseButton::Left => EventName::Click,
                        MouseButton::Other => EventName::PointerUp,
                    },
                };
                actions.push(Action::SendPlatformEvent {
                    event: PlatformEvent::Mouse {
                        name,
                        cursor: self.cursor_pos,
                        button: Some(button),
                    },
                    scale_factor,
                });
            },
            WindowEvent::MouseWheel { delta, phase } => {
                if matches!(phase, TouchPhase::Moved) {
                    actions.push(Action::SendPlatformEvent {
                        event: PlatformEvent::Wheel {
                            name: EventName::Wheel,
                            scroll: delta,
                            cursor: self.cursor_pos,
                        },
                        scale_factor,
                    });
                }
            },
            WindowEvent::ModifiersChanged(modifiers) => {
                self.modifiers_state = modifiers;
            },
            WindowEvent::KeyboardInput { physical_key, logical_key, state } => {
                let name = match state {
                    ElementState::Pressed => EventName::KeyDown,
                    ElementState::Released => EventName::KeyUp,
                };
                let key = translate_key(logical_key);
                let code = translate_physical_key(physical_key);
                let modifiers = translate_modifiers(self.modifiers_state);
                actions.push(Action::SendPlatformEvent {
                    event: PlatformEvent::Keyboard { name, key, code, modifiers },
                    scale_factor,
                });
            },
            WindowEvent::CursorLeft => {
                self.cursor_pos = CursorPoint::off_surface();
                actions.push(Action::SendPlatformEvent {
                    event: PlatformEvent::Mouse {
                        name: EventName::MouseOver,
                        cursor: self.cursor_pos,
                        button: None,
                    },
                    scale_factor,
                });
            },
            WindowEvent::CursorMoved { x, y } => {
                self.cursor_pos = CursorPoint { x, y };
                actions.push(Action::SendPlatformEvent {
                    event: PlatformEvent::Mouse {
                        name: EventName::MouseOver,
                        cursor: self.cursor_pos,
                        button: None,
                    },
                    scale_factor,
                });
                let dropped = self.dropped_file_path.take();
                match dropped {
                    Some(path) => {
                        actions.push(Action::SendPlatformEvent {
                            event: PlatformEvent::File {
                                name: EventName::FileDrop,
                                file_path: Some(path),
                                cursor: self.cursor_pos,
                            },
                            scale_factor,
                        });
                    },
                    None => {},
                }
            },
            WindowEvent::Touch { x, y, phase, finger_id, force } => {
                self.cursor_pos = CursorPoint { x, y };
                let name = match phase {
                    TouchPhase::Cancelled => EventName::TouchCancel,
                    TouchPhase::Ended => EventName::TouchEnd,
                    TouchPhase::Moved => EventName::TouchMove,
                    TouchPhase::Started => EventName::TouchStart,
                };
                actions.push(Action::SendPlatformEvent {
                    event: PlatformEvent::Touch {
                        name,
                        location: self.cursor_pos,
                        finger_id,
                        phase,
                        force,
                    },
                    scale_factor,
                });
            },
            WindowEvent::Resized { width, height } => {
                match &mut self.state {
                    WindowState::Created(created) => {
                        created.surface = Surface::create(width, height);
                        let gl_width = if width == 0 { 1 } else { width };
                        let gl_height = if height == 0 { 1 } else { height };
                        created.gl_surface = Surface { width: gl_width, height: gl_height };
                        created.window.width = width;
                        created.window.height = height;
                        created.app.resize();
                        actions.push(Action::RecreateSurface { width, height });
                        actions.push(Action::ResizeGlSurface {
                            width: gl_width,
                            height: gl_height,
                        });
                        actions.push(Action::RequestRedraw);
                        actions.push(Action::NotifyAppResize { width, height });
                    },
                    _ => {
                        proof {
                            assert(false);
                        }
                    },
                }
            },
            WindowEvent::DroppedFile(path) => {
                self.dropped_file_path = Some(path);
            },
            WindowEvent::HoveredFile(path) => {
                actions.push(Action::SendPlatformEvent {
                    event: PlatformEvent::File {
                        name: EventName::GlobalFileHover,
                        file_path: Some(path),
                        cursor: self.cursor_pos,
                    },
                    scale_factor,
                });
            },
            WindowEvent::HoveredFileCancelled => {
                actions.push(Action::SendPlatformEvent {
                    event: PlatformEvent::File {
                        name: EventName::GlobalFileHoverCancelled,
                        file_path: None,
                        cursor: self.cursor_pos,
                    },
                    scale_factor,
                });
            },
            WindowEvent::Other => {},
        }
        proof {
            assert(actions@ =~= spec_window_event_actions(*old(self), event0));
        }
        actions
    }

    /// The loop's teardown callback: runs the best-effort exit hook.
    pub fn exiting(&mut self)
        ensures
            *final(self) == *old(self),
    {
        self.run_on_exit();
    }

    /// Run the setup hook that the embedding registered, if any; the
    /// hooks live with the embedding, so there is nothing to do here.
    pub fn run_on_setup(&mut self)
        ensures
            *final(self) == *old(self),
    {
    }

    /// Run the exit hook that the embedding registered, if any; the hooks
    /// live with the embedding, so there is nothing to do here.
    pub fn run_on_exit(&mut self)
        ensures
            *final(self) == *old(self),
    {
    }
}

} // verus!
