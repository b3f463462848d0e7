use raymaze::map::maze;
use raymaze::map::read_map;
use raymaze::map::Terrain;
use raymaze::state::State;
use raymaze::state::ViewMode;
use raymaze::state::ANGULAR_STEP;
use raymaze::state::BUTTON_TOGGLE;
use raymaze::state::GRAVITY_PER_TICK;
use raymaze::state::INITIAL_JUMP_SPEED;
use raymaze::state::read_buttons;

const FP: i64 = 65536;

/// Fixed-point cosine and sine of a heading in angular units (2^20 per
/// revolution), the way a host computes them for `State::update`.
fn cos_sin(bam: i64) -> (i64, i64) {
    let rad = (bam as f64) * std::f64::consts::TAU / 1048576.0;
    ((rad.cos() * 65536.0) as i64, (rad.sin() * 65536.0) as i64)
}

#[test]
fn a_fresh_state_starts_grounded_at_the_entrance() {
    let s = State::new();
    assert_eq!(s.player_x, 3 * FP / 2);
    assert_eq!(s.player_y, 3 * FP / 2);
    assert_eq!(s.player_z, 0);
    assert_eq!(s.player_angle, 786432);
    assert_eq!(s.view, ViewMode::FirstPerson);
    assert!(!s.game_won);
}

#[test]
fn one_left_tick_from_rest_turns_by_exactly_one_step() {
    let m = maze();
    let mut s = State::new();
    let (c, n) = cos_sin(s.player_angle);
    let before = s.player_angle;
    s.update(&m, false, false, true, false, false, c, n);
    assert_eq!(s.player_angle, before + ANGULAR_STEP);
    assert_eq!(s.player_x, 3 * FP / 2);
    assert_eq!(s.player_y, 3 * FP / 2);
}

#[test]
fn one_right_tick_from_rest_turns_back_by_one_step() {
    let m = maze();
    let mut s = State::new();
    let (c, n) = cos_sin(s.player_angle);
    let before = s.player_angle;
    s.update(&m, false, false, false, true, false, c, n);
    assert_eq!(s.player_angle, before - ANGULAR_STEP);
}

#[test]
fn opposed_walk_buttons_cancel_exactly() {
    let m = maze();
    let mut s = State::new();
    let (c, n) = cos_sin(s.player_angle);
    s.update(&m, true, true, false, false, false, c, n);
    assert_eq!(s.player_velocity, 0);
    assert_eq!(s.player_x, 3 * FP / 2);
    assert_eq!(s.player_y, 3 * FP / 2);
}

#[test]
fn walking_forward_moves_by_the_step_size() {
    let m = maze();
    let mut s = State::new();
    // Face due east so the whole step lands on the x axis.
    s.player_angle = 0;
    s.update(&m, true, false, false, false, false, FP, 0);
    assert_eq!(s.player_x, 3 * FP / 2 + 2949);
    assert_eq!(s.player_y, 3 * FP / 2);
}

#[test]
fn a_blocked_move_never_ends_on_a_wall() {
    let m = maze();
    let mut s = State::new();
    // Stand just east of the western border wall, facing west.
    s.player_x = 66000;
    s.player_angle = 524288;
    let (c, n) = cos_sin(s.player_angle);
    s.update(&m, true, false, false, false, false, c, n);
    // The diagonal destination is wall; the y-only sub-move is open, so x
    // rolls back and the pose stays off the wall.
    assert_eq!(s.player_x, 66000);
    assert_eq!(s.player_y, 3 * FP / 2);
    assert_ne!(read_map(&m, s.player_x, s.player_y), Terrain::Wall);
    assert_eq!(s.view, ViewMode::FirstPerson);
}

#[test]
fn many_random_walks_never_end_on_a_wall() {
    let m = maze();
    // A deterministic pattern of button mashing; whatever is pressed, the
    // pose never ends a tick inside a wall.
    let mut s = State::new();
    let mut seed: u64 = 0x243f6a8885a308d3;
    for _ in 0..400 {
        seed = seed.wrapping_mul(6364136223846793005).wrapping_add(1442695040888963407);
        let bits = (seed >> 33) as u8;
        let (up, down, left, right, jump) = read_buttons(bits);
        let (c, n) = cos_sin(s.player_angle);
        s.update(&m, up, down, left, right, jump, c, n);
        assert_ne!(read_map(&m, s.player_x, s.player_y), Terrain::Wall);
        assert!(s.player_z >= 0);
    }
}

#[test]
fn stepping_onto_the_doorway_restores_the_pose_and_latches_victory() {
    let m = maze();
    let mut s = State::new();
    // Stand in the corridor just west of the exit door at tile (20, 6),
    // facing due east.
    s.player_x = 1310000;
    s.player_y = 6 * FP + FP / 2;
    s.player_angle = 0;
    let signal = s.update(&m, true, false, false, false, false, FP, 0);
    assert!(signal);
    assert_eq!(s.player_x, 1310000);
    assert_eq!(s.player_y, 6 * FP + FP / 2);
    assert_eq!(s.view, ViewMode::Victory);
    assert!(s.game_won);
    // A second doorway step keeps the victory screen but must not fire the
    // one-shot signal again.
    let signal2 = s.update(&m, true, false, false, false, false, FP, 0);
    assert!(!signal2);
    assert_eq!(s.player_x, 1310000);
    assert_eq!(s.view, ViewMode::Victory);
    assert!(s.game_won);
}

#[test]
fn jumping_rises_then_lands_exactly_on_the_ground() {
    let m = maze();
    let mut s = State::new();
    let (c, n) = cos_sin(s.player_angle);
    s.update(&m, false, false, false, false, true, c, n);
    // One tick in: airborne, still moving up.
    assert_eq!(s.player_z, INITIAL_JUMP_SPEED / 60);
    assert_eq!(s.player_z_velocity, INITIAL_JUMP_SPEED - GRAVITY_PER_TICK);
    assert!(s.player_z > 0);
    let mut ticks = 0;
    while s.player_z > 0 {
        assert!(ticks < 200, "the jump must land within the tick budget");
        s.update(&m, false, false, false, false, false, c, n);
        assert!(s.player_z >= 0);
        ticks += 1;
    }
    assert_eq!(s.player_z, 0);
    assert_eq!(s.player_z_velocity, 0);
}

#[test]
fn steering_is_ignored_while_airborne() {
    let m = maze();
    let mut s = State::new();
    let (c, n) = cos_sin(s.player_angle);
    s.update(&m, false, false, false, false, true, c, n);
    assert!(s.player_z > 0);
    // Pressing forward mid-air must not create linear velocity.
    s.update(&m, true, false, false, false, false, c, n);
    assert_eq!(s.player_velocity, 0);
}

#[test]
fn airborne_momentum_decays_by_the_drag_ratio() {
    let m = maze();
    let mut s = State::new();
    s.player_angle = 0;
    // Walk and jump on the same tick: grounded steering still happened the
    // tick before, so seed the velocity first, then jump.
    s.update(&m, true, false, false, false, false, FP, 0);
    assert_eq!(s.player_velocity, 2949);
    s.update(&m, true, false, false, false, true, FP, 0);
    assert!(s.player_z > 0);
    // Airborne: one drag application, rounded toward negative infinity.
    s.update(&m, false, false, false, false, false, FP, 0);
    assert_eq!(s.player_velocity, 2949 * 975 / 1000);
}

#[test]
fn stepping_onto_a_mirage_fools_the_player_without_reverting() {
    // A private little grid: open floor with a mirage at tile (1, 0).
    let mut cells = vec![0u8; 168];
    cells[1] = 4;
    let m = raymaze::map::TileMap::new(cells);
    let mut s = State::new();
    s.player_x = 63000;
    s.player_y = FP / 2;
    s.player_angle = 0;
    s.update(&m, true, false, false, false, false, FP, 0);
    // The move is accepted (the mirage is walkable) and the view flips.
    assert_eq!(s.player_x, 63000 + 2949);
    assert_eq!(s.view, ViewMode::Fooled);
    // Walking back onto open floor clears the illusion.
    s.player_angle = 524288;
    let (c, n) = cos_sin(s.player_angle);
    s.update(&m, true, false, false, false, false, c, n);
    assert_eq!(s.view, ViewMode::FirstPerson);
}

#[test]
fn the_view_toggle_fires_only_on_the_rising_edge() {
    let mut s = State::new();
    s.toggle_map_view(BUTTON_TOGGLE);
    assert_eq!(s.view, ViewMode::MapView);
    // Held button: no further toggling.
    s.toggle_map_view(BUTTON_TOGGLE);
    assert_eq!(s.view, ViewMode::MapView);
    s.toggle_map_view(0);
    assert_eq!(s.view, ViewMode::MapView);
    s.toggle_map_view(BUTTON_TOGGLE);
    assert_eq!(s.view, ViewMode::FirstPerson);
}

#[test]
fn the_toggle_leaves_terrain_driven_screens_alone() {
    let mut s = State::new();
    s.view = ViewMode::Victory;
    s.toggle_map_view(BUTTON_TOGGLE);
    assert_eq!(s.view, ViewMode::Victory);
    s.previous_gamepad = 0;
    s.view = ViewMode::Fooled;
    s.toggle_map_view(BUTTON_TOGGLE);
    assert_eq!(s.view, ViewMode::Fooled);
}

#[test]
fn gamepad_bits_decode_into_the_five_buttons() {
    assert_eq!(read_buttons(0), (false, false, false, false, false));
    assert_eq!(read_buttons(64), (true, false, false, false, false));
    assert_eq!(read_buttons(128 | 16 | 1), (false, true, true, false, true));
}
