use vstd::prelude::*;

use crate::control::{action_for, Action, Control, Pointer};
use crate::player::{clamp, Player, MAX_X, MIN_X};

verus! {

/// Width of the playfield, centered in the window, in pixels.
pub const GAME_WIDTH: i32 = 600;

/// The left edge of the centered playfield in a window `frame_width` pixels
/// wide, rounded down.
pub fn playfield_left(frame_width: i32) -> (r: i32)
    ensures
        r as int == (frame_width as int - GAME_WIDTH as int) / 2,
{
    let d: i64 = frame_width as i64 - GAME_WIDTH as i64;
    let half: i64 = if d >= 0 {
        d / 2
    } else {
        -((1 - d) / 2)
    };
    half as i32
}

/// The player's position after a frame in which `action` was pressed.
pub open spec fn moved(x: int, action: Option<Action>) -> int {
    match action {
        Some(Action::MoveLeft) => clamp(x - 1, MIN_X as int, MAX_X as int),
        Some(Action::MoveRight) => clamp(x + 1, MIN_X as int, MAX_X as int),
        None => x,
    }
}

/// One frame of the demo: re-derives the pressed action from `pointer`, then
/// moves the player one step left or right accordingly. Returns whether the
/// move-left hook is to run this frame, which the caller does after this call.
pub fn run_frame(
    control: &mut Control,
    player: &mut Player,
    pointer: Pointer,
    origin_x: i32,
    frame_height: i32,
) -> (hook: bool)
    ensures
        final(control).pressed_action == action_for(pointer, origin_x as int, frame_height as int),
        final(player)@ == moved(old(player)@, final(control).pressed_action),
        hook == (final(control).pressed_action == Some(Action::MoveLeft)),
{
    control.update(pointer, origin_x, frame_height);
    let mut hook = false;
    if control.is_action_down(Action::MoveLeft) {
        player.move_player(-1);
        hook = true;
    }
    if control.is_action_down(Action::MoveRight) {
        player.move_player(1);
    }
    hook
}

/// A frame in which the primary button is released leaves the player where
/// it was, wherever the pointer is.
pub proof fn lemma_idle_frame_keeps_player(
    x: int,
    pointer: Pointer,
    origin_x: int,
    frame_height: int,
)
    requires
        !pointer.down,
    ensures
        moved(x, action_for(pointer, origin_x, frame_height)) == x,
{
}

} // verus!
