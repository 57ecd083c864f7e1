//! The message vocabulary of the runtime: cross-thread wake-up messages,
//! abstract platform events delivered to the embedded application, raw
//! window events as the controller receives them, and the actions the
//! controller asks the platform embedding to perform.

use vstd::prelude::*;

use crate::input::Code;
use crate::input::Key;
use crate::input::Modifiers;
use crate::input::NativeKey;
use crate::input::NativeModifiers;
use crate::input::NativePhysicalKey;

verus! {

/// A cursor location in physical pixels. The off-surface sentinel is
/// `(-1, -1)`: the cursor left the window.
#[derive(Debug, Clone, Copy, PartialEq, Eq, Structural)]
pub struct CursorPoint {
    pub x: i64,
    pub y: i64,
}

impl CursorPoint {
    /// The sentinel for a cursor that is not over the surface.
    pub fn off_surface() -> (r: CursorPoint)
        ensures
            r == (CursorPoint { x: -1i64, y: -1i64 }),
    {
        CursorPoint { x: -1, y: -1 }
    }
}

/// The cursor icon a message asks the window to show.
#[derive(Debug, Clone, Copy, PartialEq, Eq)]
pub enum CursorIcon {
    Default,
    Pointer,
    Text,
    Wait,
    Crosshair,
    Grab,
    Grabbing,
    NotAllowed,
}

/// A platform accessibility action request, as far as the controller
/// distinguishes it: a focus request on a target node, or anything else.
#[derive(Debug, Clone, Copy, PartialEq, Eq)]
pub enum AccessibilityAction {
    Focus,
    Other,
}

/// An accessibility event delivered through the custom-message channel.
#[derive(Debug, Clone, Copy, PartialEq, Eq)]
pub enum AccessibilityWindowEvent {
    /// The platform asks for the initial accessibility tree. Honoured at
    /// most once per window lifetime; later requests are ignored.
    InitialTreeRequested,
    /// The platform requests an action on a node of the tree.
    ActionRequested { action: AccessibilityAction, target: u64 },
    /// The platform deactivated accessibility support.
    Deactivated,
}

/// Custom event-loop messages: cross-thread wake-ups into the
/// single-threaded loop, produced by background tasks or by the embedded
/// application, consumed exactly once by the controller.
#[derive(Debug, Clone, Copy, PartialEq, Eq)]
pub enum EventMessage {
    /// Update the given template, then poll the reconciliation engine.
    UpdateTemplate(u64),
    /// Poll the reconciliation engine for pending mutations.
    PollVDOM,
    /// Request a rerender.
    RequestRerender,
    /// Remeasure a text elements group.
    RemeasureTextGroup(u128),
    /// Change the cursor icon.
    SetCursorIcon(CursorIcon),
    /// Accessibility action request event.
    Accessibility(AccessibilityWindowEvent),
    /// Focus the given accessibility node.
    FocusAccessibilityNode(u64),
    /// Focus the next accessibility node.
    FocusNextAccessibilityNode,
    /// Focus the previous accessibility node.
    FocusPrevAccessibilityNode,
}

/// The name of an abstract platform event.
#[derive(Debug, Clone, Copy, PartialEq, Eq)]
pub enum EventName {
    KeyDown,
    KeyUp,
    MouseDown,
    Click,
    MiddleClick,
    RightClick,
    PointerUp,
    MouseOver,
    Wheel,
    TouchCancel,
    TouchEnd,
    TouchMove,
    TouchStart,
    FileDrop,
    GlobalFileHover,
    GlobalFileHoverCancelled,
}

/// A pointer button as the native layer reports it.
#[derive(Debug, Clone, Copy, PartialEq, Eq)]
pub enum MouseButton {
    Left,
    Right,
    Middle,
    Other,
}

/// Whether a button or key went down or up.
#[derive(Debug, Clone, Copy, PartialEq, Eq)]
pub enum ElementState {
    Pressed,
    Released,
}

/// The phase of a touch or scroll gesture.
#[derive(Debug, Clone, Copy, PartialEq, Eq)]
pub enum TouchPhase {
    Started,
    Moved,
    Ended,
    Cancelled,
}

/// Why the event loop woke up for a new iteration.
#[derive(Debug, Clone, Copy, PartialEq, Eq)]
pub enum StartCause {
    /// The very first iteration of the loop.
    Init,
    Poll,
    WaitCancelled,
    ResumeTimeReached,
}

/// An abstract, platform-independent input event, forwarded to the
/// embedded application tagged with cursor position and modifier state.
#[derive(Debug, Clone, PartialEq, Eq)]
pub enum PlatformEvent {
    Keyboard { name: EventName, key: Key, code: Code, modifiers: Modifiers },
    Mouse { name: EventName, cursor: CursorPoint, button: Option<MouseButton> },
    Wheel { name: EventName, scroll: CursorPoint, cursor: CursorPoint },
    Touch {
        name: EventName,
        location: CursorPoint,
        finger_id: u64,
        phase: TouchPhase,
        force: Option<u64>,
    },
    File { name: EventName, file_path: Option<String>, cursor: CursorPoint },
}

/// A raw window event as the platform delivers it to the controller,
/// reduced to the values the dispatch logic reads. Scroll deltas arrive
/// already converted to physical pixels; a touch force arrives normalized
/// to thousandths.
#[derive(Debug, Clone, PartialEq, Eq)]
pub enum WindowEvent {
    CloseRequested,
    /// The text-composition layer committed a piece of text.
    ImeCommit(String),
    RedrawRequested,
    MouseInput { state: ElementState, button: MouseButton },
    MouseWheel { delta: CursorPoint, phase: TouchPhase },
    ModifiersChanged(NativeModifiers),
    KeyboardInput {
        physical_key: NativePhysicalKey,
        logical_key: NativeKey,
        state: ElementState,
    },
    CursorLeft,
    CursorMoved { x: i64, y: i64 },
    Touch { x: i64, y: i64, phase: TouchPhase, finger_id: u64, force: Option<u64> },
    Resized { width: u32, height: u32 },
    DroppedFile(String),
    HoveredFile(String),
    HoveredFileCancelled,
    /// Any window event the controller does not dispatch on.
    Other,
}

/// One step the platform embedding must perform on the controller's
/// behalf, in the order returned. Each variant names the outside effect it
/// stands for; the controller's own state is already updated when the
/// action is handed out.
#[derive(Debug, Clone, PartialEq, Eq)]
pub enum Action {
    /// Forward the raw window event to the accessibility tree adapter.
    /// Always first: focus state must be consistent before input dispatch.
    ForwardAccessibilityEvent,
    /// Tell the adapter and the window that this node now holds focus.
    SetAccessibilityFocus(u64),
    /// Hand the full current accessibility tree to the platform.
    SendInitialAccessibilityTree,
    /// Enqueue a custom message on the event-loop channel.
    EnqueueMessage(EventMessage),
    /// Ask the window for a redraw.
    RequestRedraw,
    /// Remeasure one text group at the given scale factor.
    RemeasureTextGroup { id: u128, scale_factor: u32 },
    /// Set the window's cursor icon.
    SetCursorIcon(CursorIcon),
    /// Apply the updated template to the reconciliation engine.
    ApplyTemplate(u64),
    /// Poll the reconciliation engine for pending mutations.
    PollVdom,
    /// Deliver an abstract input event to the embedded application.
    SendPlatformEvent { event: PlatformEvent, scale_factor: u32 },
    /// Discard the drawing surface and allocate one at this pixel size.
    RecreateSurface { width: u32, height: u32 },
    /// Resize the presentation surface (never below one pixel per side).
    ResizeGlSurface { width: u32, height: u32 },
    /// Tell the embedded application the window's new size.
    NotifyAppResize { width: u32, height: u32 },
    /// Recompute layout at this size and scale factor.
    ComputeLayout { width: u32, height: u32, scale_factor: u32 },
    /// Clear the drawing surface to the configured background value.
    ClearSurface { background: u32 },
    /// Paint the retained UI tree, with the transient hover highlight.
    Render { width: u32, height: u32, hovered_node: Option<u64> },
    /// Run one tick of the embedded application's deferred-work queue.
    RunDeferredTasks,
    /// Tell the platform that presentation is imminent.
    PrePresentNotify,
    /// Flush queued drawing commands and swap the presentation buffer.
    /// A swap failure is logged by the embedding and the frame dropped.
    Present,
    /// Enable text-composition input on the window.
    AllowIme,
    /// Make the window visible.
    ShowWindow,
    /// Construct the embedded application around the engine handle.
    InitApp { scale_factor: u32 },
    /// Try to enable a synchronized presentation interval; failure is
    /// logged only.
    TrySetVsync,
    /// End the event loop; pending queued messages are dropped.
    Exit,
}

} // verus!
