use track_demo::board::{cell_at, cell_shade, checkerboard, shade_color};
use track_demo::control::{button_anchor, button_circle, button_clicked, BUTTON_RADIUS};
use track_demo::frame::playfield_left;
use track_demo::{run_frame, Action, Circle, Control, Player, Point, Pointer, Rgba, Shade};

const ORIGIN_X: i32 = 100;
const HEIGHT: i32 = 700;

fn left_center() -> Pointer {
    Pointer { x: 100 + 12 + 64, y: 700 - 24 - 64, down: true }
}

fn right_center() -> Pointer {
    Pointer { x: 100 + 300 + 64, y: 700 - 24 - 64, down: true }
}

#[test]
fn player_starts_at_zero() {
    assert_eq!(Player::init().x(), 0);
}

#[test]
fn move_by_one_each_way() {
    let mut p = Player::init();
    p.move_player(1);
    assert_eq!(p.x(), 1);
    p.move_player(-1);
    p.move_player(-1);
    assert_eq!(p.x(), -1);
}

#[test]
fn move_saturates_at_both_ends() {
    let mut p = Player::init();
    for _ in 0..150 {
        p.move_player(-1);
    }
    assert_eq!(p.x(), -100);
    p.move_player(-1);
    assert_eq!(p.x(), -100);
    for _ in 0..250 {
        p.move_player(1);
    }
    assert_eq!(p.x(), 100);
}

#[test]
fn large_moves_clamp() {
    let mut p = Player::init();
    p.move_player(i32::MAX);
    assert_eq!(p.x(), 100);
    p.move_player(i32::MIN);
    assert_eq!(p.x(), -100);
}

#[test]
fn circle_rim_counts_as_inside() {
    let c = Circle { x: 10, y: -5, r: 64 };
    assert!(c.contains(&Point { x: 74, y: -5 }));
    assert!(c.contains(&Point { x: 10, y: 59 }));
    assert!(!c.contains(&Point { x: 75, y: -5 }));
    assert!(c.contains(&Point { x: 10, y: -5 }));
}

#[test]
fn circle_distance_is_euclidean() {
    let c = Circle { x: 0, y: 0, r: 5 };
    assert!(c.contains(&Point { x: 3, y: 4 }));
    assert!(c.contains(&Point { x: -3, y: -4 }));
    assert!(!c.contains(&Point { x: 4, y: 4 }));
}

#[test]
fn circle_with_extreme_coordinates() {
    let c = Circle { x: i64::MIN, y: i64::MAX, r: u32::MAX };
    assert!(!c.contains(&Point { x: i64::MAX, y: i64::MIN }));
    assert!(c.contains(&Point { x: i64::MIN + 1, y: i64::MAX - 1 }));
}

#[test]
fn button_geometry() {
    let a = button_anchor(Action::MoveLeft, ORIGIN_X, HEIGHT);
    assert_eq!(a, Point { x: 112, y: 676 });
    let a = button_anchor(Action::MoveRight, ORIGIN_X, HEIGHT);
    assert_eq!(a, Point { x: 400, y: 676 });
    let c = button_circle(Action::MoveRight, ORIGIN_X, HEIGHT);
    assert_eq!(c, Circle { x: 464, y: 612, r: BUTTON_RADIUS });
}

#[test]
fn button_needs_the_primary_button() {
    let c = button_circle(Action::MoveLeft, ORIGIN_X, HEIGHT);
    let mut p = left_center();
    assert!(button_clicked(&c, &p));
    p.down = false;
    assert!(!button_clicked(&c, &p));
    let rim = Pointer { x: c.x, y: c.y + 64, down: true };
    assert!(button_clicked(&c, &rim));
    let outside = Pointer { x: c.x, y: c.y + 65, down: true };
    assert!(!button_clicked(&c, &outside));
}

#[test]
fn update_picks_the_pressed_button() {
    let mut ctl = Control::init();
    assert_eq!(ctl.pressed_action, None);
    ctl.update(left_center(), ORIGIN_X, HEIGHT);
    assert_eq!(ctl.pressed_action, Some(Action::MoveLeft));
    assert!(ctl.is_action_down(Action::MoveLeft));
    assert!(!ctl.is_action_down(Action::MoveRight));
    ctl.update(right_center(), ORIGIN_X, HEIGHT);
    assert_eq!(ctl.pressed_action, Some(Action::MoveRight));
    assert!(ctl.is_action_down(Action::MoveRight));
    assert!(!ctl.is_action_down(Action::MoveLeft));
    ctl.update(Pointer { x: 0, y: 0, down: true }, ORIGIN_X, HEIGHT);
    assert_eq!(ctl.pressed_action, None);
}

#[test]
fn move_left_frame_runs_hook_once() {
    let mut ctl = Control::init();
    let mut p = Player::init();
    let mut hook_calls = 0;
    if run_frame(&mut ctl, &mut p, left_center(), ORIGIN_X, HEIGHT) {
        hook_calls += 1;
    }
    assert_eq!(p.x(), -1);
    assert_eq!(hook_calls, 1);
}

#[test]
fn held_right_at_the_end_stays() {
    let mut ctl = Control::init();
    let mut p = Player::init();
    for _ in 0..100 {
        assert!(!run_frame(&mut ctl, &mut p, right_center(), ORIGIN_X, HEIGHT));
    }
    assert_eq!(p.x(), 100);
    for _ in 0..10 {
        assert!(!run_frame(&mut ctl, &mut p, right_center(), ORIGIN_X, HEIGHT));
        assert_eq!(p.x(), 100);
    }
}

#[test]
fn released_pointer_does_nothing() {
    let mut ctl = Control::init();
    let mut p = Player::init();
    p.move_player(7);
    for pointer in [left_center(), right_center(), Pointer { x: -3, y: 9000, down: true }] {
        let released = Pointer { down: false, ..pointer };
        assert!(!run_frame(&mut ctl, &mut p, released, ORIGIN_X, HEIGHT));
        assert_eq!(ctl.pressed_action, None);
        assert_eq!(p.x(), 7);
    }
}

#[test]
fn playfield_is_centered() {
    assert_eq!(playfield_left(800), 100);
    assert_eq!(playfield_left(801), 100);
    assert_eq!(playfield_left(600), 0);
    assert_eq!(playfield_left(599), -1);
    assert_eq!(playfield_left(400), -100);
}

#[test]
fn checker_shades_by_parity() {
    assert_eq!(cell_shade(0, 0), Shade::Dark);
    assert_eq!(cell_shade(1, 0), Shade::Light);
    assert_eq!(cell_shade(0, 1), Shade::Light);
    assert_eq!(cell_shade(1, 1), Shade::Dark);
    assert_eq!(cell_shade(u32::MAX, u32::MAX), Shade::Dark);
    assert_eq!(cell_shade(u32::MAX, 0), Shade::Light);
}

#[test]
fn checker_colors() {
    assert_eq!(shade_color(Shade::Dark), Rgba { r: 43, g: 46, b: 51, a: 255 });
    assert_eq!(shade_color(Shade::Light), Rgba { r: 59, g: 62, b: 67, a: 255 });
}

#[test]
fn checker_cell_position() {
    let c = cell_at(3, 2);
    assert_eq!((c.x, c.y, c.size, c.shade), (50, 30, 20, Shade::Light));
    let c = cell_at(0, 0);
    assert_eq!((c.x, c.y), (-10, -10));
}

#[test]
fn checkerboard_covers_the_window() {
    let cols = checkerboard(45, 20);
    assert_eq!(cols.len(), 3);
    for (i, col) in cols.iter().enumerate() {
        assert_eq!(col.len(), 2);
        for (j, cell) in col.iter().enumerate() {
            assert_eq!(*cell, cell_at(i as u32, j as u32));
        }
    }
    let empty = checkerboard(0, 0);
    assert_eq!(empty.len(), 1);
    assert_eq!(empty[0], vec![cell_at(0, 0)]);
}

#[test]
fn checkerboard_reaches_right_and_bottom_edges() {
    let cols = checkerboard(39, 39);
    assert_eq!(cols.len(), 3);
    assert_eq!(cols[2].len(), 3);
    assert_eq!(cols[2][2], cell_at(2, 2));
    for (w, h) in [(39u32, 39u32), (1279, 41), (30, 31), (1, 1)] {
        let cols = checkerboard(w, h);
        for px in [0i64, (w - 1) as i64] {
            for py in [0i64, (h - 1) as i64] {
                let hit = cols.iter().flatten().any(|c| {
                    c.x <= px && px < c.x + c.size as i64 && c.y <= py && py < c.y + c.size as i64
                });
                assert!(hit, "pixel ({}, {}) of a {}x{} window is bare", px, py, w, h);
            }
        }
    }
    assert_eq!(checkerboard(1279, 10).len(), 65);
    assert_eq!(checkerboard(1270, 10).len(), 64);
}
