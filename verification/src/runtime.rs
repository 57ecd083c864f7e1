//! The message-consuming loop over the controller: one incoming message
//! after another, strictly in delivery order, until a close request ends
//! the loop and drops whatever is still queued.
//!
//! The laws of the dispatch live here too: what an active window
//! guarantees across whole message sequences — per-order processing, the
//! surface/window size lockstep, the pairing of a dropped file with the
//! next cursor move, and the frame ordering after a resize.

use vstd::prelude::*;

use crate::events::Action;
use crate::events::CursorPoint;
use crate::events::EventMessage;
use crate::events::EventName;
use crate::events::PlatformEvent;
use crate::events::WindowEvent;
use crate::gpu::MAX_SURFACE_DIM;
use crate::gpu::Surface;
use crate::window::DesktopRenderer;
use crate::window::WindowState;
use crate::window::spec_send_event;
use crate::window::spec_user_event_actions;
use crate::window::spec_user_event_state;
use crate::window::spec_window_event_actions;
use crate::window::spec_window_event_state;

verus! {

/// One message delivered to an active window's controller: a custom
/// wake-up message or a raw window event.
#[derive(Debug, Clone, PartialEq, Eq)]
pub enum Incoming {
    User(EventMessage),
    Window(WindowEvent),
}

/// Whether this message ends the loop.
pub open spec fn spec_is_close(incoming: Incoming) -> bool {
    incoming matches Incoming::Window(WindowEvent::CloseRequested)
}

/// Whether this message stays within the GPU layer's machine limit on
/// render-target sizes (only a resize carries one).
pub open spec fn spec_in_bounds(incoming: Incoming) -> bool {
    incoming matches Incoming::Window(WindowEvent::Resized { width, height }) ==> {
        &&& width <= MAX_SURFACE_DIM
        &&& height <= MAX_SURFACE_DIM
    }
}

/// The controller state after one message.
pub open spec fn spec_step_state(r: DesktopRenderer, incoming: Incoming) -> DesktopRenderer {
    match incoming {
        Incoming::User(message) => spec_user_event_state(r, message),
        Incoming::Window(event) => spec_window_event_state(r, event),
    }
}

/// The actions one message asks of the embedding.
pub open spec fn spec_step_actions(r: DesktopRenderer, incoming: Incoming) -> Seq<Action> {
    match incoming {
        Incoming::User(message) => spec_user_event_actions(r, message),
        Incoming::Window(event) => spec_window_event_actions(r, event),
    }
}

/// How many queued messages get dispatched: everything up to and
/// including the first close request, and the whole queue when none
/// closes. Messages after a close are dropped unprocessed.
pub open spec fn spec_drain_count(queue: Seq<Incoming>) -> int
    decreases queue.len(),
{
    if queue.len() == 0 {
        0
    } else if spec_is_close(queue[0]) {
        1
    } else {
        1 + spec_drain_count(queue.drop_first())
    }
}

/// The controller state after draining the queue: messages fold over the
/// state strictly in delivery order, stopping after the first close.
pub open spec fn spec_drain_state(r: DesktopRenderer, queue: Seq<Incoming>) -> DesktopRenderer
    decreases queue.len(),
{
    if queue.len() == 0 {
        r
    } else {
        let stepped = spec_step_state(r, queue[0]);
        if spec_is_close(queue[0]) {
            stepped
        } else {
            spec_drain_state(stepped, queue.drop_first())
        }
    }
}

/// The actions draining the queue asks of the embedding: each message's
/// batch in delivery order, ending with the first close's batch.
pub open spec fn spec_drain_actions(r: DesktopRenderer, queue: Seq<Incoming>) -> Seq<Action>
    decreases queue.len(),
{
    if queue.len() == 0 {
        Seq::<Action>::empty()
    } else {
        let batch = spec_step_actions(r, queue[0]);
        if spec_is_close(queue[0]) {
            batch
        } else {
            batch + spec_drain_actions(spec_step_state(r, queue[0]), queue.drop_first())
        }
    }
}

impl DesktopRenderer {
    /// Dispatches one delivered message of an active window.
    pub fn step(&mut self, incoming: Incoming) -> (res: Vec<Action>)
        requires
            old(self).state is Created,
            spec_in_bounds(incoming),
        ensures
            *final(self) == spec_step_state(*old(self), incoming),
            res@ == spec_step_actions(*old(self), incoming),
            final(self).state is Created,
    {
        match incoming {
            Incoming::User(message) => self.user_event(message),
            Incoming::Window(event) => self.window_event(event),
        }
    }

    /// Drains a queue of delivered messages: processes them strictly in
    /// delivery order, stops after the first close request and drops the
    /// rest unprocessed. Returns the concatenated action batches and how
    /// many messages were dispatched.
    pub fn drain_events(&mut self, queue: Vec<Incoming>) -> (res: (Vec<Action>, usize))
        requires
            old(self).state is Created,
            forall|i: int| 0 <= i < queue@.len() ==> spec_in_bounds(#[trigger] queue@[i]),
        ensures
            *final(self) == spec_drain_state(*old(self), queue@),
            res.0@ == spec_drain_actions(*old(self), queue@),
            res.1 == spec_drain_count(queue@),
    {
        let ghost queue0 = queue@;
        let mut remaining = queue;
        let total: usize = remaining.len();
        let mut actions: Vec<Action> = Vec::new();
        let mut processed: usize = 0;
        let mut closed = false;
        while !closed && remaining.len() > 0
            invariant
                self.state is Created,
                total == queue0.len(),
                0 <= processed <= total,
                remaining@ == queue0.skip(processed as int),
                forall|i: int| 0 <= i < queue0.len() ==> spec_in_bounds(#[trigger] queue0[i]),
                !closed ==> {
                    &&& spec_drain_state(*old(self), queue0) == spec_drain_state(
                        *self,
                        remaining@,
                    )
                    &&& spec_drain_actions(*old(self), queue0) == actions@ + spec_drain_actions(
                        *self,
                        remaining@,
                    )
                    &&& spec_drain_count(queue0) == processed + spec_drain_count(remaining@)
                },
                closed ==> {
                    &&& spec_drain_state(*old(self), queue0) == *self
                    &&& spec_drain_actions(*old(self), queue0) == actions@
                    &&& spec_drain_count(queue0) == processed
                },
            decreases remaining@.len(),
        {
            let ghost remaining0 = remaining@;
            let incoming = remaining.remove(0);
            let ghost incoming0 = incoming;
            let is_close = matches!(
                &incoming,
                Incoming::Window(WindowEvent::CloseRequested)
            );
            proof {
                assert(spec_in_bounds(incoming0)) by {
                    assert(queue0[processed as int] == remaining0[0]);
                }
                assert(remaining@ =~= remaining0.drop_first());
                assert(queue0.skip(processed as int + 1) =~= remaining0.drop_first());
            }
            let mut batch = self.step(incoming);
            actions.append(&mut batch);
            processed = processed + 1;
            if is_close {
                closed = true;
            }
            proof {
                if spec_is_close(incoming0) {
                    assert(spec_drain_actions(*old(self), queue0) =~= actions@);
                } else {
                    assert(spec_drain_actions(*old(self), queue0) =~= actions@
                        + spec_drain_actions(*self, remaining@));
                }
            }
        }
        proof {
            if !closed {
                assert(remaining@.len() == 0);
                assert(spec_drain_actions(*old(self), queue0) =~= actions@);
            }
        }
        (actions, processed)
    }
}

/// Queued messages behind a close request are never dispatched: when the
/// first close sits at position `k`, exactly the first `k + 1` messages
/// are processed and the rest — however many are still queued — are
/// dropped.
pub proof fn lemma_close_drops_queued(queue: Seq<Incoming>, k: int)
    requires
        0 <= k < queue.len(),
        spec_is_close(queue[k]),
        forall|j: int| 0 <= j < k ==> !spec_is_close(#[trigger] queue[j]),
    ensures
        spec_drain_count(queue) == k + 1,
    decreases k,
{
    if k == 0 {
    } else {
        assert(queue.drop_first()[k - 1] == queue[k]);
        assert(forall|j: int| 0 <= j < k - 1 ==> queue.drop_first()[j] == queue[j + 1]);
        lemma_close_drops_queued(queue.drop_first(), k - 1);
    }
}

/// Messages are processed strictly in the order enqueued: the head of the
/// queue takes its step first — on the state every later message sees —
/// and its action batch precedes everything the rest of the queue asks.
pub proof fn lemma_messages_processed_in_order(r: DesktopRenderer, queue: Seq<Incoming>)
    requires
        queue.len() > 0,
        !spec_is_close(queue[0]),
    ensures
        spec_drain_state(r, queue) == spec_drain_state(
            spec_step_state(r, queue[0]),
            queue.drop_first(),
        ),
        spec_drain_actions(r, queue) == spec_step_actions(r, queue[0]) + spec_drain_actions(
            spec_step_state(r, queue[0]),
            queue.drop_first(),
        ),
        spec_drain_count(queue) == 1 + spec_drain_count(queue.drop_first()),
{
}

/// A template update triggers exactly one reconciliation poll, and it
/// happens after the template is applied.
pub proof fn lemma_template_update_polls_once(r: DesktopRenderer, template: u64)
    requires
        r.state is Created,
    ensures
        spec_user_event_actions(r, EventMessage::UpdateTemplate(template)) == seq![
            Action::ApplyTemplate(template),
            Action::PollVdom,
        ],
        spec_user_event_actions(r, EventMessage::UpdateTemplate(template))[1]
            == Action::PollVdom,
        forall|i: int|
            0 <= i < spec_user_event_actions(r, EventMessage::UpdateTemplate(template)).len()
                && spec_user_event_actions(r, EventMessage::UpdateTemplate(template))[i]
                == Action::PollVdom ==> i == 1,
{
    assert(spec_user_event_actions(r, EventMessage::UpdateTemplate(template)) =~= seq![
        Action::ApplyTemplate(template),
        Action::PollVdom,
    ]);
}

/// A message that arrives before the first `resume` signal is rejected
/// without fault: the state is untouched and nothing is dispatched.
pub proof fn lemma_message_before_resume_ignored(r: DesktopRenderer, event: EventMessage)
    requires
        r.state is NotCreated,
    ensures
        spec_user_event_state(r, event) == r,
        spec_user_event_actions(r, event) == Seq::<Action>::empty(),
{
}

/// The drawing surface's pixel size equals the tracked window size.
pub open spec fn spec_surface_in_lockstep(r: DesktopRenderer) -> bool {
    r.state matches WindowState::Created(created) ==> {
        &&& created.surface.width == created.window.width
        &&& created.surface.height == created.window.height
    }
}

/// Immediately after any resize of an active window, the drawing
/// surface's pixel dimensions equal the window's physical size.
pub proof fn lemma_resize_restores_lockstep(r: DesktopRenderer, width: u32, height: u32)
    requires
        r.state is Created,
    ensures
        ({
            let resized = spec_window_event_state(r, WindowEvent::Resized { width, height });
            &&& resized.state->Created_0.surface == (Surface { width, height })
            &&& resized.state->Created_0.window.width == width
            &&& resized.state->Created_0.window.height == height
            &&& spec_surface_in_lockstep(resized)
        }),
{
}

/// Every window event of an active window preserves the surface/window
/// size lockstep; stale-size surfaces never outlive a handler.
pub proof fn lemma_window_event_preserves_lockstep(r: DesktopRenderer, event: WindowEvent)
    requires
        r.state is Created,
        spec_surface_in_lockstep(r),
    ensures
        spec_surface_in_lockstep(spec_window_event_state(r, event)),
{
}

/// Every custom message preserves the surface/window size lockstep.
pub proof fn lemma_user_event_preserves_lockstep(r: DesktopRenderer, event: EventMessage)
    requires
        spec_surface_in_lockstep(r),
    ensures
        spec_surface_in_lockstep(spec_user_event_state(r, event)),
{
}

/// One dispatched message keeps the window active and the surface in
/// lockstep with it.
pub proof fn lemma_step_preserves_lockstep(r: DesktopRenderer, incoming: Incoming)
    requires
        r.state is Created,
        spec_surface_in_lockstep(r),
    ensures
        spec_step_state(r, incoming).state is Created,
        spec_surface_in_lockstep(spec_step_state(r, incoming)),
{
}

/// Draining any queue of messages keeps the window active and the
/// drawing surface in lockstep with the window's size, at the end as at
/// every step in between: a stale-size surface never survives a handler.
pub proof fn lemma_drain_preserves_lockstep(r: DesktopRenderer, queue: Seq<Incoming>)
    requires
        r.state is Created,
        spec_surface_in_lockstep(r),
    ensures
        spec_drain_state(r, queue).state is Created,
        spec_surface_in_lockstep(spec_drain_state(r, queue)),
    decreases queue.len(),
{
    if queue.len() == 0 {
    } else {
        lemma_step_preserves_lockstep(r, queue[0]);
        if !spec_is_close(queue[0]) {
            lemma_drain_preserves_lockstep(spec_step_state(r, queue[0]), queue.drop_first());
        }
    }
}

/// Whether an action delivers a file-drop notification to the embedded
/// application.
pub open spec fn spec_is_file_drop(action: Action) -> bool {
    action matches Action::SendPlatformEvent {
        event: PlatformEvent::File { name: EventName::FileDrop, .. },
        ..
    }
}

/// Handling the same resize twice changes nothing the second time: the
/// resize handling is idempotent in the controller state, so one
/// notification per size change suffices.
pub proof fn lemma_resize_idempotent(r: DesktopRenderer, width: u32, height: u32)
    requires
        r.state is Created,
    ensures
        spec_window_event_state(
            spec_window_event_state(r, WindowEvent::Resized { width, height }),
            WindowEvent::Resized { width, height },
        ) == spec_window_event_state(r, WindowEvent::Resized { width, height }),
{
}

/// A dropped-file event followed by a cursor-move event produces exactly
/// one file-drop notification, carrying the dropped path and the move's
/// cursor position. The drop itself notifies nothing yet.
pub proof fn lemma_file_drop_pairing(r: DesktopRenderer, path: String, x: i64, y: i64)
    requires
        r.state is Created,
    ensures
        ({
            let drop_batch = spec_window_event_actions(r, WindowEvent::DroppedFile(path));
            forall|i: int| 0 <= i < drop_batch.len() ==> !spec_is_file_drop(#[trigger] drop_batch[i])
        }),
        ({
            let after_drop = spec_window_event_state(r, WindowEvent::DroppedFile(path));
            let move_batch = spec_window_event_actions(
                after_drop,
                WindowEvent::CursorMoved { x, y },
            );
            &&& move_batch.len() == 3
            &&& move_batch[2] == spec_send_event(
                after_drop,
                PlatformEvent::File {
                    name: EventName::FileDrop,
                    file_path: Some(path),
                    cursor: CursorPoint { x, y },
                },
            )
            &&& forall|i: int|
                0 <= i < move_batch.len() && i != 2 ==> !spec_is_file_drop(
                    #[trigger] move_batch[i],
                )
        }),
{
}

/// A cursor move with no dropped file pending produces no file-drop
/// notification, and leaves none pending.
pub proof fn lemma_cursor_move_without_drop(r: DesktopRenderer, x: i64, y: i64)
    requires
        r.state is Created,
        r.dropped_file_path is None,
    ensures
        ({
            let move_batch = spec_window_event_actions(r, WindowEvent::CursorMoved { x, y });
            forall|i: int| 0 <= i < move_batch.len() ==> !spec_is_file_drop(#[trigger] move_batch[i])
        }),
        spec_window_event_state(r, WindowEvent::CursorMoved { x, y }).dropped_file_path is None,
{
}

/// After a resize, the next redraw recomputes layout at the new size
/// before painting, and paints at that same size: layout recomputation
/// for a frame happens-before painting for that frame.
pub proof fn lemma_redraw_after_resize(r: DesktopRenderer, width: u32, height: u32)
    requires
        r.state is Created,
    ensures
        ({
            let resized = spec_window_event_state(r, WindowEvent::Resized { width, height });
            let frame = spec_window_event_actions(resized, WindowEvent::RedrawRequested);
            let scale = resized.state->Created_0.window.scale_factor;
            &&& frame.len() == 7
            &&& frame[1] == Action::ComputeLayout { width, height, scale_factor: scale }
            &&& frame[3] == Action::Render {
                width,
                height,
                hovered_node: resized.hovered_node,
            }
            &&& frame[4] == Action::RunDeferredTasks
            &&& frame[6] == Action::Present
        }),
{
    let resized = spec_window_event_state(r, WindowEvent::Resized { width, height });
    let frame = spec_window_event_actions(resized, WindowEvent::RedrawRequested);
    assert(resized.state->Created_0.app.measure_layout_on_next_render);
    assert(frame =~= seq![Action::ForwardAccessibilityEvent]
        + seq![
            Action::ComputeLayout {
                width,
                height,
                scale_factor: resized.state->Created_0.window.scale_factor,
            },
        ]
        + seq![
            Action::ClearSurface {
                background: resized.state->Created_0.window_config.background,
            },
            Action::Render { width, height, hovered_node: resized.hovered_node },
            Action::RunDeferredTasks,
            Action::PrePresentNotify,
            Action::Present,
        ]);
}

/// The application's deferred-work tick runs strictly after painting in
/// every frame: a tick's side effects can only reach the following frame.
pub proof fn lemma_tick_after_paint(r: DesktopRenderer)
    requires
        r.state is Created,
    ensures
        ({
            let frame = spec_window_event_actions(r, WindowEvent::RedrawRequested);
            let layout_offset: int = if r.state->Created_0.app.measure_layout_on_next_render {
                1
            } else {
                0
            };
            &&& frame.len() == 6 + layout_offset
            &&& frame[2 + layout_offset] == Action::Render {
                width: r.state->Created_0.surface.width,
                height: r.state->Created_0.surface.height,
                hovered_node: r.hovered_node,
            }
            &&& frame[3 + layout_offset] == Action::RunDeferredTasks
        }),
{
}

} // verus!
