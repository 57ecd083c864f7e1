//! The embedded application as the controller sees it: the accessibility
//! bridge, the navigation mode, and the layout-invalidation flag that
//! schedules a layout recomputation for the next frame.
//!
//! The reconciliation engine behind the application is an opaque
//! collaborator: the controller only tells the embedding when to poll it,
//! and the embedding reports back what invalidates layout.

use vstd::prelude::*;

use crate::accessibility::AccessibilityBridge;
use crate::accessibility::AccessibilityFocusDirection;
use crate::accessibility::NavigationMode;
use crate::accessibility::spec_navigate;

verus! {

/// The embedded application object held by the active window state.
#[derive(Debug, Clone, PartialEq, Eq)]
pub struct Application {
    pub accessibility: AccessibilityBridge,
    pub navigation_mode: NavigationMode,
    /// Raised by resize, text remeasurement and engine mutations; the next
    /// redraw recomputes layout before painting and clears it.
    pub measure_layout_on_next_render: bool,
}

impl Application {
    /// The application as constructed on window creation: pointer-driven
    /// navigation, a fresh accessibility bridge, no pending layout work
    /// (the construction sequence runs the initial layout pass itself).
    pub fn new() -> (r: Application)
        ensures
            r.accessibility.focused_node is None,
            r.accessibility.focusable_nodes@ == Seq::<u64>::empty(),
            !r.accessibility.initial_tree_sent,
            r.navigation_mode == NavigationMode::NotKeyboard,
            !r.measure_layout_on_next_render,
    {
        Application {
            accessibility: AccessibilityBridge::new(),
            navigation_mode: NavigationMode::NotKeyboard,
            measure_layout_on_next_render: false,
        }
    }

    /// Records the new window size's consequence: layout must be
    /// recomputed before the next paint. Idempotent.
    pub fn resize(&mut self)
        ensures
            *final(self) == (Application { measure_layout_on_next_render: true, ..*old(self) }),
    {
        self.measure_layout_on_next_render = true;
    }

    /// Records that one text group was remeasured: the new measurements
    /// invalidate layout for the next frame.
    pub fn measure_text_group(&mut self)
        ensures
            *final(self) == (Application { measure_layout_on_next_render: true, ..*old(self) }),
    {
        self.measure_layout_on_next_render = true;
    }

    /// Raised by the embedding when an engine poll or a deferred-work tick
    /// produced mutations; takes effect at the next frame, never the
    /// current one.
    pub fn mark_layout_dirty(&mut self)
        ensures
            *final(self) == (Application { measure_layout_on_next_render: true, ..*old(self) }),
    {
        self.measure_layout_on_next_render = true;
    }

    /// Sets whether focus-driving input currently comes from the keyboard.
    pub fn set_navigation_mode(&mut self, mode: NavigationMode)
        ensures
            *final(self) == (Application { navigation_mode: mode, ..*old(self) }),
    {
        self.navigation_mode = mode;
    }

    /// Moves accessibility focus one step in the given direction; returns
    /// the node now focused, if any.
    pub fn focus_next_node(&mut self, direction: AccessibilityFocusDirection) -> (r: Option<u64>)
        ensures
            r == spec_navigate(
                old(self).accessibility.focusable_nodes@,
                old(self).accessibility.focused_node,
                direction,
            ),
            *final(self) == (Application {
                accessibility: AccessibilityBridge {
                    focused_node: r,
                    ..old(self).accessibility
                },
                ..*old(self)
            }),
    {
        self.accessibility.navigate(direction)
    }
}

} // verus!
