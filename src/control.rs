use vstd::prelude::*;

use crate::geometry::{circle_holds, Circle, Point};

verus! {

/// Radius of each on-screen button, in pixels.
pub const BUTTON_RADIUS: u32 = 64;

/// Horizontal offset of the move-left button's anchor from the playfield's left edge.
pub const LEFT_BUTTON_OFFSET: i64 = 12;

/// Horizontal offset of the move-right button's anchor from the playfield's left edge.
pub const RIGHT_BUTTON_OFFSET: i64 = 300;

/// Distance of both buttons' anchors above the bottom of the window.
pub const BUTTON_BASELINE: i64 = 24;

/// One of the two discrete movement commands.
#[derive(Clone, Copy, Debug, PartialEq, Eq, Structural)]
pub enum Action {
    MoveLeft,
    MoveRight,
}

/// The pointer as sampled for one frame: its position in pixels and whether
/// the primary button is held.
#[derive(Clone, Copy, Debug, PartialEq, Eq, Structural)]
pub struct Pointer {
    pub x: i64,
    pub y: i64,
    pub down: bool,
}

/// The anchor of the button for `action`, as `(x, y)`.
pub open spec fn anchor_of(action: Action, origin_x: int, frame_height: int) -> (int, int) {
    let dx = match action {
        Action::MoveLeft => LEFT_BUTTON_OFFSET as int,
        Action::MoveRight => RIGHT_BUTTON_OFFSET as int,
    };
    (origin_x + dx, frame_height - BUTTON_BASELINE)
}

/// The center of the button for `action`: its anchor moved by one radius
/// right and one radius up.
pub open spec fn center_of(action: Action, origin_x: int, frame_height: int) -> (int, int) {
    let a = anchor_of(action, origin_x, frame_height);
    (a.0 + BUTTON_RADIUS, a.1 - BUTTON_RADIUS)
}

/// The pointer presses a button on `c`: the primary button is held and the
/// pointer lies in `c`.
pub open spec fn pressing(c: Circle, pointer: Pointer) -> bool {
    pointer.down && circle_holds(c, Point { x: pointer.x, y: pointer.y })
}

/// The pointer presses the button for `action`.
pub open spec fn hits(action: Action, pointer: Pointer, origin_x: int, frame_height: int) -> bool {
    let c = center_of(action, origin_x, frame_height);
    &&& pointer.down
    &&& crate::geometry::dist_sq(pointer.x as int, pointer.y as int, c.0, c.1)
        <= (BUTTON_RADIUS as int) * (BUTTON_RADIUS as int)
}

/// The action pressed this frame: move-left if its button is pressed, else
/// move-right if its button is, else none.
pub open spec fn action_for(pointer: Pointer, origin_x: int, frame_height: int) -> Option<Action> {
    if hits(Action::MoveLeft, pointer, origin_x, frame_height) {
        Some(Action::MoveLeft)
    } else if hits(Action::MoveRight, pointer, origin_x, frame_height) {
        Some(Action::MoveRight)
    } else {
        None
    }
}

/// The anchor of the button for `action`, for a playfield whose left edge is
/// at `origin_x` in a window `frame_height` pixels high.
pub fn button_anchor(action: Action, origin_x: i32, frame_height: i32) -> (p: Point)
    ensures
        (p.x as int, p.y as int) == anchor_of(action, origin_x as int, frame_height as int),
{
    let dx: i64 = match action {
        Action::MoveLeft => LEFT_BUTTON_OFFSET,
        Action::MoveRight => RIGHT_BUTTON_OFFSET,
    };
    Point { x: origin_x as i64 + dx, y: frame_height as i64 - BUTTON_BASELINE }
}

/// The circle of the button for `action`, used both to draw it and to test
/// whether it is pressed.
pub fn button_circle(action: Action, origin_x: i32, frame_height: i32) -> (c: Circle)
    ensures
        (c.x as int, c.y as int) == center_of(action, origin_x as int, frame_height as int),
        c.r == BUTTON_RADIUS,
{
    let a = button_anchor(action, origin_x, frame_height);
    Circle { x: a.x + BUTTON_RADIUS as i64, y: a.y - BUTTON_RADIUS as i64, r: BUTTON_RADIUS }
}

/// Whether `pointer` presses a button drawn as `c`.
pub fn button_clicked(c: &Circle, pointer: &Pointer) -> (r: bool)
    ensures
        r == pressing(*c, *pointer),
{
    pointer.down && c.contains(&Point { x: pointer.x, y: pointer.y })
}

/// Which of the two actions, if any, is pressed in the current frame.
pub struct Control {
    pub pressed_action: Option<Action>,
}

impl Control {
    /// A control with no action pressed.
    pub fn init() -> (c: Control)
        ensures
            c.pressed_action is None,
    {
        Control { pressed_action: None }
    }

    /// Re-derives the pressed action from the pointer, for a playfield whose
    /// left edge is at `origin_x` in a window `frame_height` pixels high.
    /// The move-left button is tested first and wins when both are pressed.
    pub fn update(&mut self, pointer: Pointer, origin_x: i32, frame_height: i32)
        ensures
            final(self).pressed_action == action_for(
                pointer,
                origin_x as int,
                frame_height as int,
            ),
    {
        let left = button_circle(Action::MoveLeft, origin_x, frame_height);
        let right = button_circle(Action::MoveRight, origin_x, frame_height);
        if button_clicked(&left, &pointer) {
            self.pressed_action = Some(Action::MoveLeft);
        } else if button_clicked(&right, &pointer) {
            self.pressed_action = Some(Action::MoveRight);
        } else {
            self.pressed_action = None;
        }
    }

    /// Whether `action` is the one pressed.
    pub fn is_action_down(&self, action: Action) -> (r: bool)
        ensures
            r == (self.pressed_action == Some(action)),
    {
        match self.pressed_action {
            Some(a) => a == action,
            None => false,
        }
    }
}

/// At most one action is pressed per frame: move-left exactly when the
/// pointer presses its button, which wins when both buttons are pressed;
/// move-right only when the pointer presses its button and not the other.
pub proof fn lemma_left_button_wins(pointer: Pointer, origin_x: int, frame_height: int)
    ensures
        hits(Action::MoveLeft, pointer, origin_x, frame_height) <==> action_for(
            pointer,
            origin_x,
            frame_height,
        ) == Some(Action::MoveLeft),
        action_for(pointer, origin_x, frame_height) == Some(Action::MoveRight) <==> !hits(
            Action::MoveLeft,
            pointer,
            origin_x,
            frame_height,
        ) && hits(Action::MoveRight, pointer, origin_x, frame_height),
        action_for(pointer, origin_x, frame_height) is None <==> !hits(
            Action::MoveLeft,
            pointer,
            origin_x,
            frame_height,
        ) && !hits(Action::MoveRight, pointer, origin_x, frame_height),
{
}

/// With the primary button released no action is pressed, wherever the
/// pointer is.
pub proof fn lemma_released_pointer_presses_nothing(
    pointer: Pointer,
    origin_x: int,
    frame_height: int,
)
    requires
        !pointer.down,
    ensures
        action_for(pointer, origin_x, frame_height) is None,
{
}

} // verus!
