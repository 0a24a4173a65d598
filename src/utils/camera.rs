//! The movement bookkeeping of the first-person camera.
//!
//! The camera keeps one flag per movement direction, set while the matching
//! key is held. Opposing flags are netted into a signed factor per axis, which
//! the camera scales by the frame's duration to move its position.
use vstd::prelude::*;

verus! {

/// A direction in which the camera can be asked to move.
#[derive(Debug, Clone, Copy, PartialEq, Eq, Structural)]
pub enum MovementDirection {
    Forward,
    Backward,
    Left,
    Right,
    Up,
    Down,
}

/// The number of movement directions.
pub const DIRECTION_COUNT: usize = 6;

/// The slot of each direction in the camera's list of movement requests.
pub open spec fn request_index(direction: MovementDirection) -> int {
    match direction {
        MovementDirection::Forward => 0,
        MovementDirection::Backward => 1,
        MovementDirection::Left => 2,
        MovementDirection::Right => 3,
        MovementDirection::Up => 4,
        MovementDirection::Down => 5,
    }
}

impl MovementDirection {
    pub fn as_request_index(&self) -> (r: usize)
        ensures
            r == request_index(*self),
            r < DIRECTION_COUNT,
    {
        match self {
            MovementDirection::Forward => 0,
            MovementDirection::Backward => 1,
            MovementDirection::Left => 2,
            MovementDirection::Right => 3,
            MovementDirection::Up => 4,
            MovementDirection::Down => 5,
        }
    }
}

/// Which movement directions are currently requested, one flag per direction.
pub struct MovementRequest {
    pub requested: [bool; 6],
}

/// One flag as a number: 1 when requested, 0 otherwise.
pub open spec fn flag_value(requested: bool) -> int {
    if requested {
        1
    } else {
        0
    }
}

impl View for MovementRequest {
    type V = Seq<bool>;

    open spec fn view(&self) -> Seq<bool> {
        self.requested@
    }
}

impl MovementRequest {
    /// Whether `direction` is requested.
    pub open spec fn is_requested(&self, direction: MovementDirection) -> bool {
        self@[request_index(direction)]
    }

    /// The net request along an axis: 1 towards `start`, -1 towards `finish`,
    /// and 0 when both or neither are requested.
    pub open spec fn spec_factor(&self, start: MovementDirection, finish: MovementDirection) -> int {
        flag_value(self.is_requested(start)) - flag_value(self.is_requested(finish))
    }

    /// Nothing requested.
    pub fn new() -> (r: Self)
        ensures
            r@.len() == DIRECTION_COUNT,
            forall|i: int| 0 <= i < DIRECTION_COUNT ==> !#[trigger] r@[i],
    {
        MovementRequest { requested: [false; 6] }
    }

    /// Sets or clears the request for one direction, leaving the others.
    pub fn set_move_direction(&mut self, direction: MovementDirection, requested: bool)
        ensures
            final(self)@ == old(self)@.update(request_index(direction), requested),
    {
        let index = direction.as_request_index();
        self.requested[index] = requested;
    }

    /// The net request along the axis from `finish` to `start`.
    pub fn calculate_factor(&self, start: MovementDirection, finish: MovementDirection) -> (r: i8)
        ensures
            r == self.spec_factor(start, finish),
    {
        let towards: i8 = if self.requested[start.as_request_index()] {
            1
        } else {
            0
        };
        let away: i8 = if self.requested[finish.as_request_index()] {
            1
        } else {
            0
        };
        towards - away
    }

    /// The net requests along the right, forward and up axes.
    pub fn axis_factors(&self) -> (r: (i8, i8, i8))
        ensures
            r.0 == self.spec_factor(MovementDirection::Right, MovementDirection::Left),
            r.1 == self.spec_factor(MovementDirection::Forward, MovementDirection::Backward),
            r.2 == self.spec_factor(MovementDirection::Up, MovementDirection::Down),
    {
        (
            self.calculate_factor(MovementDirection::Right, MovementDirection::Left),
            self.calculate_factor(MovementDirection::Forward, MovementDirection::Backward),
            self.calculate_factor(MovementDirection::Up, MovementDirection::Down),
        )
    }
}

/// A key, as far as the camera reads it.
#[derive(Debug, Clone, Copy, PartialEq, Eq, Structural)]
pub enum Keycode {
    W,
    S,
    A,
    D,
    LShift,
    LCtrl,
    Escape,
    /// Any other key.
    Other,
}

/// The direction that each key moves the camera in.
pub open spec fn key_direction(keycode: Keycode) -> Option<MovementDirection> {
    match keycode {
        Keycode::W => Some(MovementDirection::Forward),
        Keycode::S => Some(MovementDirection::Backward),
        Keycode::A => Some(MovementDirection::Left),
        Keycode::D => Some(MovementDirection::Right),
        Keycode::LShift => Some(MovementDirection::Up),
        Keycode::LCtrl => Some(MovementDirection::Down),
        Keycode::Escape | Keycode::Other => None,
    }
}

pub fn try_keycode_as_direction(keycode: Keycode) -> (r: Option<MovementDirection>)
    ensures
        r == key_direction(keycode),
{
    match keycode {
        Keycode::W => Some(MovementDirection::Forward),
        Keycode::S => Some(MovementDirection::Backward),
        Keycode::A => Some(MovementDirection::Left),
        Keycode::D => Some(MovementDirection::Right),
        Keycode::LShift => Some(MovementDirection::Up),
        Keycode::LCtrl => Some(MovementDirection::Down),
        Keycode::Escape | Keycode::Other => None,
    }
}

/// An input event, as far as the main loop and the camera read it.
#[derive(Debug, Clone, Copy, PartialEq, Eq, Structural)]
pub enum InputEvent {
    /// The window is asked to close.
    Quit,
    KeyUp(Keycode),
    KeyDown(Keycode),
    /// The mouse moved by `xrel` to the right and `yrel` down.
    MouseMotion { xrel: i32, yrel: i32 },
    /// Any other event, or a key event without a key.
    Other,
}

/// The movement requests after `event`: a key press requests the key's
/// direction, a key release withdraws it, anything else changes nothing.
pub open spec fn requests_after(requested: Seq<bool>, event: InputEvent) -> Seq<bool> {
    match event {
        InputEvent::KeyUp(keycode) => match key_direction(keycode) {
            Some(direction) => requested.update(request_index(direction), false),
            None => requested,
        },
        InputEvent::KeyDown(keycode) => match key_direction(keycode) {
            Some(direction) => requested.update(request_index(direction), true),
            None => requested,
        },
        _ => requested,
    }
}

/// The mouse movement that `event` hands to the camera's view angles.
pub open spec fn look_offset(event: InputEvent) -> Option<(i32, i32)> {
    match event {
        InputEvent::MouseMotion { xrel, yrel } => Some((xrel, yrel)),
        _ => None,
    }
}

/// Applies an input event to the movement requests, and returns the mouse
/// movement, if any, that is to turn the camera.
pub fn process_input_event(request: &mut MovementRequest, event: InputEvent) -> (r: Option<(i32, i32)>)
    ensures
        final(request)@ == requests_after(old(request)@, event),
        r == look_offset(event),
{
    match event {
        InputEvent::KeyUp(keycode) => {
            if let Some(direction) = try_keycode_as_direction(keycode) {
                request.set_move_direction(direction, false);
            }
            None
        },
        InputEvent::KeyDown(keycode) => {
            if let Some(direction) = try_keycode_as_direction(keycode) {
                request.set_move_direction(direction, true);
            }
            None
        },
        InputEvent::MouseMotion { xrel, yrel } => Some((xrel, yrel)),
        InputEvent::Quit | InputEvent::Other => None,
    }
}

/// Whether `event` ends the main loop: a request to close the window, or
/// the release of the escape key.
pub fn is_quit_event(event: InputEvent) -> (r: bool)
    ensures
        r == (event == InputEvent::Quit || event == InputEvent::KeyUp(Keycode::Escape)),
{
    match event {
        InputEvent::Quit => true,
        InputEvent::KeyUp(Keycode::Escape) => true,
        _ => false,
    }
}

} // verus!
