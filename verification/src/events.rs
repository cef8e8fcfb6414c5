//! The drag-to-select session as a state machine: window events go in,
//! state changes and requested actions come out. The surrounding event loop
//! performs the actions — capturing, previewing, redrawing, sleeping,
//! exiting — and owns no decision of its own.

use vstd::prelude::*;
use crate::geometry::Point;
use crate::geometry::Rect;
use crate::geometry::normalized_rect;
use crate::geometry::spec_normalized_rect;

verus! {

/// How the event loop schedules its next wake-up.
#[derive(Clone, Copy, Debug, PartialEq, Eq)]
pub enum Mode {
    /// Sleep until an event arrives.
    Wait,
    /// Sleep until an event arrives or a fixed delay passes.
    WaitUntil,
    /// Sleep a fixed interval, then poll.
    Poll,
}

/// Why the event loop woke up, as far as the session cares: a timed wait was
/// cut short by an event, or anything else.
#[derive(Clone, Copy, Debug, PartialEq, Eq)]
pub enum StartCauseKind {
    WaitCancelled,
    Other,
}

/// Whether a drag is in progress, and where it started.
#[derive(Clone, Copy, Debug, PartialEq, Eq)]
pub enum DragState {
    Idle,
    Dragging(Point),
}

/// A window event, reduced to what the session reads of it.
#[derive(Clone, Copy, Debug, PartialEq, Eq)]
pub enum WindowEventKind {
    CloseRequested,
    MouseInput { pressed: bool, left: bool },
    CursorMoved { position: Point },
    RedrawRequested,
    Other,
}

/// What the event loop is asked to do in response to one window event.
#[derive(Clone, Copy, Debug, PartialEq, Eq)]
pub enum EventAction {
    /// Nothing beyond the state change.
    NoAction,
    /// Capture the rectangle dragged out between the two points.
    Capture { start: Point, end: Point },
    /// Show the selection dragged out so far, already normalized.
    Preview { rect: Rect },
}

/// Which control flow the event loop sets before it next sleeps.
#[derive(Clone, Copy, Debug, PartialEq, Eq)]
pub enum ControlFlowChoice {
    /// Block until an event arrives.
    Wait,
    /// Block until an event arrives or the fixed delay passes.
    WaitUntilDelay,
    /// Sleep the fixed interval, then poll.
    PollAfterSleep,
}

/// Everything the event loop does right before it sleeps: whether to ask for
/// a redraw, which control flow to set — `None` keeps the one already set —
/// and whether to exit.
#[derive(Clone, Copy, Debug, PartialEq, Eq)]
pub struct WaitDirective {
    pub redraw: bool,
    pub control: Option<ControlFlowChoice>,
    pub exit: bool,
}

/// The state of one capture session.
#[derive(Clone, Copy, Debug, PartialEq, Eq)]
pub struct AppState {
    pub mode: Mode,
    pub request_redraw: bool,
    pub wait_cancelled: bool,
    pub close_requested: bool,
    pub mouse_position: Point,
    pub drag: DragState,
}

/// A fresh session: waiting mode, no flags set, cursor at the origin, no
/// drag in progress.
pub open spec fn initial_app_state() -> AppState {
    AppState {
        mode: Mode::Wait,
        request_redraw: false,
        wait_cancelled: false,
        close_requested: false,
        mouse_position: Point { x: 0, y: 0 },
        drag: DragState::Idle,
    }
}

impl Default for AppState {
    /// The state a session starts in.
    fn default() -> (s: AppState)
        ensures
            s == initial_app_state(),
    {
        AppState {
            mode: Mode::Wait,
            request_redraw: false,
            wait_cancelled: false,
            close_requested: false,
            mouse_position: Point { x: 0, y: 0 },
            drag: DragState::Idle,
        }
    }
}

impl AppState {
    /// Record why the loop woke up: a cancelled wait counts only while the
    /// loop runs in `WaitUntil` mode. No other field changes.
    pub fn note_new_events(&mut self, cause: StartCauseKind)
        ensures
            final(self).wait_cancelled == (cause == StartCauseKind::WaitCancelled && old(
                self,
            ).mode == Mode::WaitUntil),
            final(self).mode == old(self).mode,
            final(self).request_redraw == old(self).request_redraw,
            final(self).close_requested == old(self).close_requested,
            final(self).mouse_position == old(self).mouse_position,
            final(self).drag == old(self).drag,
    {
        self.wait_cancelled = match cause {
            StartCauseKind::WaitCancelled => match self.mode {
                Mode::WaitUntil => true,
                _ => false,
            },
            StartCauseKind::Other => false,
        };
    }

    /// Feed one window event into the session. A close request latches the
    /// close flag; a left press starts a drag at the current cursor; a left
    /// release ends the drag and asks for the dragged rectangle to be
    /// captured; a cursor move updates the position and, during a drag, asks
    /// for a preview of the normalized selection. Everything else changes
    /// nothing.
    pub fn handle_window_event(&mut self, event: WindowEventKind) -> (action: EventAction)
        ensures
            final(self).mode == old(self).mode,
            final(self).request_redraw == old(self).request_redraw,
            final(self).wait_cancelled == old(self).wait_cancelled,
            final(self).close_requested == (old(self).close_requested || (
            event matches WindowEventKind::CloseRequested)),
            final(self).mouse_position == (match event {
                WindowEventKind::CursorMoved { position } => position,
                _ => old(self).mouse_position,
            }),
            final(self).drag == (match event {
                WindowEventKind::MouseInput { pressed: true, left: true } => DragState::Dragging(
                    old(self).mouse_position,
                ),
                WindowEventKind::MouseInput { pressed: false, left: true } => DragState::Idle,
                _ => old(self).drag,
            }),
            action == (match event {
                WindowEventKind::MouseInput { pressed: false, left: true } => match old(
                    self,
                ).drag {
                    DragState::Dragging(start) => EventAction::Capture {
                        start,
                        end: old(self).mouse_position,
                    },
                    DragState::Idle => EventAction::NoAction,
                },
                WindowEventKind::CursorMoved { position } => match old(self).drag {
                    DragState::Dragging(start) => EventAction::Preview {
                        rect: spec_normalized_rect(start, position),
                    },
                    DragState::Idle => EventAction::NoAction,
                },
                _ => EventAction::NoAction,
            }),
    {
        match event {
            WindowEventKind::CloseRequested => {
                self.close_requested = true;
                EventAction::NoAction
            },
            WindowEventKind::MouseInput { pressed, left } => {
                if pressed {
                    if left {
                        self.drag = DragState::Dragging(self.mouse_position);
                    }
                    EventAction::NoAction
                } else {
                    if left {
                        let action = match self.drag {
                            DragState::Dragging(start) => EventAction::Capture {
                                start,
                                end: self.mouse_position,
                            },
                            DragState::Idle => EventAction::NoAction,
                        };
                        self.drag = DragState::Idle;
                        action
                    } else {
                        EventAction::NoAction
                    }
                }
            },
            WindowEventKind::CursorMoved { position } => {
                self.mouse_position = position;
                match self.drag {
                    DragState::Dragging(start) => EventAction::Preview {
                        rect: normalized_rect(start, position),
                    },
                    DragState::Idle => EventAction::NoAction,
                }
            },
            WindowEventKind::RedrawRequested => EventAction::NoAction,
            WindowEventKind::Other => EventAction::NoAction,
        }
    }

    /// What to do before the loop sleeps: redraw only when one is requested
    /// and neither a cancelled wait nor a pending close stands in the way;
    /// set the control flow the mode calls for, except that a cancelled wait
    /// keeps the previous one in `WaitUntil` mode; exit when a close was
    /// requested.
    pub fn about_to_wait_directive(&self) -> (d: WaitDirective)
        ensures
            d.redraw == (self.request_redraw && !self.wait_cancelled && !self.close_requested),
            d.exit == self.close_requested,
            d.control == (match self.mode {
                Mode::Wait => Some(ControlFlowChoice::Wait),
                Mode::WaitUntil => if self.wait_cancelled {
                    None::<ControlFlowChoice>
                } else {
                    Some(ControlFlowChoice::WaitUntilDelay)
                },
                Mode::Poll => Some(ControlFlowChoice::PollAfterSleep),
            }),
    {
        let redraw = self.request_redraw && !self.wait_cancelled && !self.close_requested;
        let control = match self.mode {
            Mode::Wait => Some(ControlFlowChoice::Wait),
            Mode::WaitUntil => if self.wait_cancelled {
                None
            } else {
                Some(ControlFlowChoice::WaitUntilDelay)
            },
            Mode::Poll => Some(ControlFlowChoice::PollAfterSleep),
        };
        WaitDirective { redraw, control, exit: self.close_requested }
    }
}

} // verus!
