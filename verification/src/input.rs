//! The input tracker: pointer and key events folded into the cursor, drag
//! and click fields of the parameter block.

use crate::params::ShaderConstants;
use crate::scalar::Scalar;
use vstd::prelude::*;

verus! {

/// Whether a button or key went down or came up.
#[derive(Clone, Copy, Debug, PartialEq, Eq, Structural)]
pub enum ElementState {
    Pressed,
    Released,
}

/// The pointer button of an event, as far as the tracker tells buttons apart.
#[derive(Clone, Copy, Debug, PartialEq, Eq, Structural)]
pub enum Button {
    Left,
    Other,
}

/// A wheel movement.
#[derive(Clone, Copy, Debug, PartialEq, Eq, Structural)]
pub enum ScrollDelta {
    /// A movement counted in lines. `x` and `y` are the line counts already
    /// multiplied by the wheel scale.
    Lines { x: Scalar, y: Scalar },
    /// A movement in any other measure, such as pixels.
    Other,
}

/// The key of an event, as far as the tracker tells keys apart.
#[derive(Clone, Copy, Debug, PartialEq, Eq, Structural)]
pub enum Key {
    Escape,
    Other,
}

/// One discrete input event.
#[derive(Clone, Copy, Debug, PartialEq, Eq, Structural)]
pub enum InputEvent {
    /// The pointer is now at `(x, y)`, in pixels of window space.
    PointerMoved { x: Scalar, y: Scalar },
    PointerButton { button: Button, state: ElementState },
    MouseWheel { delta: ScrollDelta },
    KeyboardInput { key: Key, state: ElementState },
}

impl InputEvent {
    /// The event of the left button going down.
    pub open spec fn is_left_press(self) -> bool {
        self == (InputEvent::PointerButton { button: Button::Left, state: ElementState::Pressed })
    }

    /// An event of the left button, down or up.
    pub open spec fn is_left_button(self) -> bool {
        self matches InputEvent::PointerButton { button: Button::Left, .. }
    }

    /// A wheel movement counted in lines.
    pub open spec fn is_line_scroll(self) -> bool {
        self matches InputEvent::MouseWheel { delta: ScrollDelta::Lines { .. } }
    }

    /// The event that asks the render loop to shut down: Escape going down.
    pub open spec fn requests_shutdown(self) -> bool {
        self == (InputEvent::KeyboardInput { key: Key::Escape, state: ElementState::Pressed })
    }
}

/// Cursor, drag and click state, as the last events left it.
#[derive(Clone, Copy, Debug, PartialEq, Eq, Structural)]
pub struct InputTracker {
    pub cursor_x: Scalar,
    pub cursor_y: Scalar,
    pub drag_start_x: Scalar,
    pub drag_start_y: Scalar,
    pub drag_end_x: Scalar,
    pub drag_end_y: Scalar,
    /// True between a left press and the following left release.
    pub mouse_left_pressed: bool,
    /// Set by a left press, cleared by the next snapshot.
    pub mouse_left_clicked: bool,
}

/// One thing that happens to a tracker: an event, or a snapshot.
pub enum TrackerStep {
    Event(InputEvent),
    Snapshot,
}

impl TrackerStep {
    /// The event of the left button going down.
    pub open spec fn is_left_press(self) -> bool {
        self matches TrackerStep::Event(event) && event.is_left_press()
    }
}

impl InputTracker {
    /// The tracker before any event: everything at zero, nothing pressed.
    pub open spec fn initial() -> InputTracker {
        let zero = Scalar { bits: 0 };
        InputTracker {
            cursor_x: zero,
            cursor_y: zero,
            drag_start_x: zero,
            drag_start_y: zero,
            drag_end_x: zero,
            drag_end_y: zero,
            mouse_left_pressed: false,
            mouse_left_clicked: false,
        }
    }

    /// The tracker after `event`.
    ///
    /// A move sets the cursor, and the drag end too while the left button is
    /// down. A left press starts a drag at the cursor and raises the click
    /// flag. A left release only lowers the pressed flag. A wheel movement in
    /// lines overwrites the drag end. Nothing else changes the tracker.
    pub open spec fn after(self, event: InputEvent) -> InputTracker {
        match event {
            InputEvent::PointerMoved { x, y } => if self.mouse_left_pressed {
                InputTracker { cursor_x: x, cursor_y: y, drag_end_x: x, drag_end_y: y, ..self }
            } else {
                InputTracker { cursor_x: x, cursor_y: y, ..self }
            },
            InputEvent::PointerButton { button: Button::Left, state: ElementState::Pressed } => {
                InputTracker {
                    drag_start_x: self.cursor_x,
                    drag_start_y: self.cursor_y,
                    drag_end_x: self.cursor_x,
                    drag_end_y: self.cursor_y,
                    mouse_left_pressed: true,
                    mouse_left_clicked: true,
                    ..self
                }
            },
            InputEvent::PointerButton { button: Button::Left, state: ElementState::Released } => {
                InputTracker { mouse_left_pressed: false, ..self }
            },
            InputEvent::MouseWheel { delta: ScrollDelta::Lines { x, y } } => {
                InputTracker { drag_end_x: x, drag_end_y: y, ..self }
            },
            _ => self,
        }
    }

    /// The tracker after the events of `events`, first to last.
    pub open spec fn after_all(self, events: Seq<InputEvent>) -> InputTracker
        decreases events.len(),
    {
        if events.len() == 0 {
            self
        } else {
            self.after_all(events.drop_last()).after(events.last())
        }
    }

    /// The parameter block that a snapshot taken now would hold, for a
    /// surface of `width` by `height` pixels at time `time`.
    pub open spec fn block(self, width: u32, height: u32, time: Scalar) -> ShaderConstants {
        ShaderConstants {
            surface_width: width,
            surface_height: height,
            elapsed_time: time,
            cursor_x: self.cursor_x,
            cursor_y: self.cursor_y,
            drag_start_x: self.drag_start_x,
            drag_start_y: self.drag_start_y,
            drag_end_x: self.drag_end_x,
            drag_end_y: self.drag_end_y,
            mouse_left_pressed: if self.mouse_left_pressed {
                1
            } else {
                0
            },
            mouse_left_clicked: if self.mouse_left_clicked {
                1
            } else {
                0
            },
        }
    }

    /// The tracker after a snapshot: the click flag is down, the rest kept.
    pub open spec fn after_snapshot(self) -> InputTracker {
        InputTracker { mouse_left_clicked: false, ..self }
    }

    /// The tracker after `step`.
    pub open spec fn after_step(self, step: TrackerStep) -> InputTracker {
        match step {
            TrackerStep::Event(event) => self.after(event),
            TrackerStep::Snapshot => self.after_snapshot(),
        }
    }

    /// The tracker after the steps of `steps`, first to last.
    pub open spec fn after_steps(self, steps: Seq<TrackerStep>) -> InputTracker
        decreases steps.len(),
    {
        if steps.len() == 0 {
            self
        } else {
            self.after_steps(steps.drop_last()).after_step(steps.last())
        }
    }

    /// A tracker that has seen no event.
    pub fn new() -> (tracker: InputTracker)
        ensures
            tracker == InputTracker::initial(),
    {
        let zero = Scalar::zero();
        InputTracker {
            cursor_x: zero,
            cursor_y: zero,
            drag_start_x: zero,
            drag_start_y: zero,
            drag_end_x: zero,
            drag_end_y: zero,
            mouse_left_pressed: false,
            mouse_left_clicked: false,
        }
    }

    /// Takes in one event. Returns whether the event asks for shutdown; the
    /// tracker itself stops nothing.
    pub fn handle(&mut self, event: InputEvent) -> (shutdown: bool)
        ensures
            *final(self) == old(self).after(event),
            shutdown == event.requests_shutdown(),
    {
        match event {
            InputEvent::PointerMoved { x, y } => {
                self.cursor_x = x;
                self.cursor_y = y;
                if self.mouse_left_pressed {
                    self.drag_end_x = x;
                    self.drag_end_y = y;
                }
                false
            },
            InputEvent::PointerButton { button, state } => {
                match button {
                    Button::Left => {
                        match state {
                            ElementState::Pressed => {
                                self.mouse_left_pressed = true;
                                self.drag_start_x = self.cursor_x;
                                self.drag_start_y = self.cursor_y;
                                self.drag_end_x = self.cursor_x;
                                self.drag_end_y = self.cursor_y;
                                self.mouse_left_clicked = true;
                            },
                            ElementState::Released => {
                                self.mouse_left_pressed = false;
                            },
                        }
                    },
                    Button::Other => {},
                }
                false
            },
            InputEvent::MouseWheel { delta } => {
                match delta {
                    ScrollDelta::Lines { x, y } => {
                        self.drag_end_x = x;
                        self.drag_end_y = y;
                    },
                    ScrollDelta::Other => {},
                }
                false
            },
            InputEvent::KeyboardInput { key, state } => {
                match (key, state) {
                    (Key::Escape, ElementState::Pressed) => true,
                    _ => false,
                }
            },
        }
    }

    /// Builds the parameter block for a frame and consumes the click: the
    /// block reports the click flag as it stood, and the flag is down
    /// afterwards.
    pub fn snapshot(&mut self, width: u32, height: u32, time: Scalar) -> (block: ShaderConstants)
        ensures
            block == old(self).block(width, height, time),
            *final(self) == old(self).after_snapshot(),
    {
        let block = ShaderConstants {
            surface_width: width,
            surface_height: height,
            elapsed_time: time,
            cursor_x: self.cursor_x,
            cursor_y: self.cursor_y,
            drag_start_x: self.drag_start_x,
            drag_start_y: self.drag_start_y,
            drag_end_x: self.drag_end_x,
            drag_end_y: self.drag_end_y,
            mouse_left_pressed: if self.mouse_left_pressed {
                1
            } else {
                0
            },
            mouse_left_clicked: if self.mouse_left_clicked {
                1
            } else {
                0
            },
        };
        self.mouse_left_clicked = false;
        block
    }
}

/// While the left button is up, moving the pointer changes the cursor and
/// nothing else: after any run of moves the drag fields and both flags are
/// as before, and the cursor is where the last move put it.
pub proof fn law_moves_while_released(tracker: InputTracker, moves: Seq<InputEvent>)
    requires
        !tracker.mouse_left_pressed,
        forall|i: int| 0 <= i < moves.len() ==> moves[i] is PointerMoved,
    ensures
        tracker.after_all(moves).drag_start_x == tracker.drag_start_x,
        tracker.after_all(moves).drag_start_y == tracker.drag_start_y,
        tracker.after_all(moves).drag_end_x == tracker.drag_end_x,
        tracker.after_all(moves).drag_end_y == tracker.drag_end_y,
        tracker.after_all(moves).mouse_left_pressed == tracker.mouse_left_pressed,
        tracker.after_all(moves).mouse_left_clicked == tracker.mouse_left_clicked,
        moves.len() == 0 ==> tracker.after_all(moves) == tracker,
        moves.len() > 0 ==> moves.last() == (InputEvent::PointerMoved {
            x: tracker.after_all(moves).cursor_x,
            y: tracker.after_all(moves).cursor_y,
        }),
    decreases moves.len(),
{
    if moves.len() > 0 {
        law_moves_while_released(tracker, moves.drop_last());
    }
}

/// While the left button is held, the drag end follows the cursor and the
/// drag start stays where the press put it: after a left press and any run
/// of events that holds neither a left-button event nor a wheel movement in
/// lines, the button is still down, the drag end is the cursor, and the drag
/// start is the cursor of the moment of the press.
pub proof fn law_drag_follows_cursor(tracker: InputTracker, held: Seq<InputEvent>)
    requires
        forall|i: int|
            0 <= i < held.len() ==> !(#[trigger] held[i]).is_left_button()
                && !held[i].is_line_scroll(),
    ensures
        ({
            let pressed = tracker.after(
                InputEvent::PointerButton { button: Button::Left, state: ElementState::Pressed },
            );
            let now = pressed.after_all(held);
            &&& now.mouse_left_pressed
            &&& now.drag_end_x == now.cursor_x
            &&& now.drag_end_y == now.cursor_y
            &&& now.drag_start_x == tracker.cursor_x
            &&& now.drag_start_y == tracker.cursor_y
        }),
    decreases held.len(),
{
    if held.len() > 0 {
        law_drag_follows_cursor(tracker, held.drop_last());
        assert(!held.last().is_left_button() && !held.last().is_line_scroll());
    }
}

/// A click is reported once. The snapshot taken right after a left press
/// reports the click. Every snapshot after that one and before the next left
/// press, whatever events and snapshots lie in between, reports none.
pub proof fn law_click_reported_once(
    tracker: InputTracker,
    later: Seq<TrackerStep>,
    width: u32,
    height: u32,
    time: Scalar,
)
    requires
        forall|i: int| 0 <= i < later.len() ==> !(#[trigger] later[i]).is_left_press(),
    ensures
        ({
            let pressed = tracker.after(
                InputEvent::PointerButton { button: Button::Left, state: ElementState::Pressed },
            );
            &&& pressed.block(width, height, time).mouse_left_clicked == 1
            &&& pressed.after_snapshot().after_steps(later).block(
                width,
                height,
                time,
            ).mouse_left_clicked == 0
        }),
{
    let pressed = tracker.after(
        InputEvent::PointerButton { button: Button::Left, state: ElementState::Pressed },
    );
    lemma_click_stays_down(pressed.after_snapshot(), later);
}

/// Without a left press the click flag does not come up.
proof fn lemma_click_stays_down(tracker: InputTracker, steps: Seq<TrackerStep>)
    requires
        !tracker.mouse_left_clicked,
        forall|i: int| 0 <= i < steps.len() ==> !(#[trigger] steps[i]).is_left_press(),
    ensures
        !tracker.after_steps(steps).mouse_left_clicked,
    decreases steps.len(),
{
    if steps.len() > 0 {
        lemma_click_stays_down(tracker, steps.drop_last());
        assert(!steps.last().is_left_press());
    }
}

} // verus!
