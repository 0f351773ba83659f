use player_motion::coord::Coord;
use player_motion::input::KeyState;
use player_motion::player::{
    confine_player_movement, move_player, player_tick, spawn_player, Position, Viewport,
};

fn no_keys() -> KeyState {
    KeyState {
        left: false,
        right: false,
        up: false,
        down: false,
        key_a: false,
        key_d: false,
        key_w: false,
        key_s: false,
    }
}

fn at(x_units: i64, y_units: i64) -> Position {
    Position {
        x: Coord { axis: x_units * 2000, diag: 0 },
        y: Coord { axis: y_units * 2000, diag: 0 },
        z: 0,
    }
}

#[test]
fn spawn_centers_player() {
    let p = spawn_player(&Viewport { width: 800, height: 600 });
    // (400, 300) in subunits of 1/2000 world unit.
    assert_eq!(p.x, Coord { axis: 800_000, diag: 0 });
    assert_eq!(p.y, Coord { axis: 600_000, diag: 0 });
    assert_eq!(p.z, 0);
}

#[test]
fn hold_right_one_second() {
    let vp = Viewport { width: 800, height: 600 };
    let mut player = Some(spawn_player(&vp));
    let keys = KeyState { right: true, ..no_keys() };
    player_tick(&mut player, &keys, 1000, &vp);
    // 400 + 200 * 1.0 = 600 world units; y untouched; no clamp needed.
    assert_eq!(player, Some(at(600, 300)));
}

#[test]
fn clamp_at_right_edge() {
    let vp = Viewport { width: 800, height: 600 };
    let mut player = Some(at(780, 300));
    let keys = KeyState { right: true, ..no_keys() };
    player_tick(&mut player, &keys, 1000, &vp);
    // Unclamped x would be 980; the clamp yields 800 - 32 = 768.
    assert_eq!(player, Some(at(768, 300)));
}

#[test]
fn opposing_keys_leave_position() {
    let start = at(400, 300);
    let keys = KeyState { left: true, right: true, ..no_keys() };
    let mut player = Some(start);
    move_player(&mut player, &keys, 1234);
    assert_eq!(player, Some(start));
    let aliased = KeyState { key_a: true, key_d: true, ..no_keys() };
    let mut player2 = Some(start);
    move_player(&mut player2, &aliased, 987_654);
    assert_eq!(player2, Some(start));
}

#[test]
fn idle_tick_is_noop() {
    let start = at(123, 456);
    for dt in [0u32, 1, 1000, u32::MAX] {
        let mut player = Some(start);
        move_player(&mut player, &no_keys(), dt);
        assert_eq!(player, Some(start));
    }
}

#[test]
fn dt_zero_is_noop() {
    let start = at(400, 300);
    let keys = KeyState { right: true, up: true, ..no_keys() };
    let mut player = Some(start);
    move_player(&mut player, &keys, 0);
    assert_eq!(player, Some(start));
}

#[test]
fn alias_left_equals_a() {
    let arrow = KeyState { left: true, ..no_keys() };
    let letter = KeyState { key_a: true, ..no_keys() };
    let mut with_arrow = Some(at(400, 300));
    let mut with_letter = Some(at(400, 300));
    move_player(&mut with_arrow, &arrow, 750);
    move_player(&mut with_letter, &letter, 750);
    assert_eq!(with_arrow, with_letter);
    // 400 - 200 * 0.75 = 250 world units.
    assert_eq!(with_arrow, Some(at(250, 300)));
}

#[test]
fn both_aliases_do_not_double() {
    let both = KeyState { left: true, key_a: true, ..no_keys() };
    let one = KeyState { left: true, ..no_keys() };
    let mut with_both = Some(at(400, 300));
    let mut with_one = Some(at(400, 300));
    move_player(&mut with_both, &both, 500);
    move_player(&mut with_one, &one, 500);
    assert_eq!(with_both, with_one);
}

#[test]
fn diagonal_moves_at_unit_speed() {
    let keys = KeyState { right: true, up: true, ..no_keys() };
    let mut player = Some(at(400, 300));
    move_player(&mut player, &keys, 1000);
    // Each axis advances by 200 / sqrt(2) world units: the sqrt(2)
    // coefficient grows by 200 * 1000 subunits, the rational part not at all
    // - not by the axis-aligned 400_000 subunits.
    let p = player.unwrap();
    assert_eq!(p.x, Coord { axis: 800_000, diag: 200_000 });
    assert_eq!(p.y, Coord { axis: 600_000, diag: 200_000 });
}

#[test]
fn vertical_aliases_move_vertically() {
    let up = KeyState { key_w: true, ..no_keys() };
    let mut player = Some(at(400, 300));
    move_player(&mut player, &up, 500);
    // Up is +y: 300 + 200 * 0.5 = 400 world units.
    assert_eq!(player, Some(at(400, 400)));
    let down = KeyState { key_s: true, ..no_keys() };
    move_player(&mut player, &down, 1000);
    assert_eq!(player, Some(at(400, 200)));
}

#[test]
fn wrong_order_can_escape_bounds() {
    let vp = Viewport { width: 800, height: 600 };
    let keys = KeyState { right: true, ..no_keys() };
    let max_x: i64 = (800 - 32) * 2000;

    // Integrator then clamp: in bounds even from a far-out start.
    let mut ordered = Some(at(900, 300));
    player_tick(&mut ordered, &keys, 100, &vp);
    assert_eq!(ordered, Some(at(768, 300)));

    // Clamp then integrator: the tick ends out of bounds.
    let mut swapped = Some(at(900, 300));
    confine_player_movement(&mut swapped, &vp);
    move_player(&mut swapped, &keys, 100);
    let escaped = swapped.unwrap();
    assert!(escaped.x.axis > max_x);
    assert_eq!(escaped.x.axis, 768 * 2000 + 40_000);
}

#[test]
fn clamp_decides_sqrt2_values_exactly() {
    let vp = Viewport { width: 800, height: 600 };
    // 750 + 100 * sqrt(2) = 891.42... world units: past the 768 edge.
    let over = Position {
        x: Coord { axis: 1_500_000, diag: 200_000 },
        y: Coord { axis: 600_000, diag: 0 },
        z: 0,
    };
    let mut player = Some(over);
    confine_player_movement(&mut player, &vp);
    assert_eq!(player, Some(at(768, 300)));
    // 750 + 12.5 * sqrt(2) = 767.67... world units: just inside the edge.
    let under = Position {
        x: Coord { axis: 1_500_000, diag: 25_000 },
        y: Coord { axis: 600_000, diag: 0 },
        z: 0,
    };
    let mut kept = Some(under);
    confine_player_movement(&mut kept, &vp);
    assert_eq!(kept, Some(under));
}

#[test]
fn degenerate_viewport_lower_bound_wins() {
    // Width below one player diameter: the interval is inverted and the
    // lower bound is applied first, as in the per-axis if/else-if clamp.
    let vp = Viewport { width: 40, height: 40 };
    let mut player = Some(at(20, 20));
    confine_player_movement(&mut player, &vp);
    assert_eq!(player, Some(at(32, 32)));
}

#[test]
fn absent_player_is_skipped() {
    let vp = Viewport { width: 800, height: 600 };
    let keys = KeyState { right: true, ..no_keys() };
    let mut player: Option<Position> = None;
    move_player(&mut player, &keys, 1000);
    assert_eq!(player, None);
    confine_player_movement(&mut player, &vp);
    assert_eq!(player, None);
    player_tick(&mut player, &keys, 1000, &vp);
    assert_eq!(player, None);
}

#[test]
fn depth_never_changes() {
    let vp = Viewport { width: 800, height: 600 };
    let keys = KeyState { right: true, down: true, ..no_keys() };
    let mut player = Some(Position { z: 7, ..at(400, 300) });
    player_tick(&mut player, &keys, 2500, &vp);
    assert_eq!(player.unwrap().z, 7);
}

#[test]
fn clamp_uses_current_viewport() {
    let keys = no_keys();
    let mut player = Some(at(700, 300));
    // Wide window: 700 is in bounds, the tick leaves it alone.
    player_tick(&mut player, &keys, 16, &Viewport { width: 800, height: 600 });
    assert_eq!(player, Some(at(700, 300)));
    // The window shrank between ticks: the clamp must use the new bounds.
    player_tick(&mut player, &keys, 16, &Viewport { width: 600, height: 600 });
    assert_eq!(player, Some(at(568, 300)));
}
