//! The gameplay state and its per-tick update.
//!
//! [`State`] owns the player pose (fixed-point position, binary angle,
//! vertical bob), the velocities, the view-mode tag and the victory latch.
//! [`State::update`] runs once per frame tick: it steers, integrates the
//! pose, resolves collisions against the map with axis separation, applies
//! terrain-triggered view transitions, and integrates the vertical motion.
//!
//! The cosine and sine of the player's heading are not computed here; the
//! caller passes them in as fixed-point values (the host computes them from
//! [`State::player_angle`], which counts [`crate::angle::FULL_TURN`] units
//! per revolution). Every contract below holds for arbitrary passed values:
//! the update clamps them into `[-FP_ONE, FP_ONE]` and the postconditions
//! are stated over the clamped values.

use vstd::prelude::*;

verus! {

use crate::angle::FULL_TURN;
use crate::angle::spec_wrap;
use crate::angle::wrap_angle;
use crate::fixed::FP_ONE;
use crate::fixed::clamp_abs;
use crate::fixed::floor_div;
use crate::fixed::spec_clamp_abs;
use crate::map::Terrain;
use crate::map::TileMap;
use crate::map::read_map;
use crate::map::spec_terrain_at;

/// Linear step per tick while walking, in fixed-point tiles (0.045 tiles).
pub const STEP_SIZE: i64 = 2949;

/// Angular step per tick while turning, in angular units (0.045 radians).
pub const ANGULAR_STEP: i64 = 7511;

/// Gravity per tick, in fixed-point tiles per second (6.0 per second,
/// applied over a sixtieth of a second).
pub const GRAVITY_PER_TICK: i64 = 6554;

/// Vertical speed granted by a jump, in fixed-point tiles per second (3.0).
pub const INITIAL_JUMP_SPEED: i64 = 196608;

/// Airborne velocities shrink by this ratio each tick (0.975).
pub const DRAG_NUM: i64 = 975;

/// Denominator of the airborne drag ratio.
pub const DRAG_DEN: i64 = 1000;

/// Ticks per second of simulated time.
pub const TICKS_PER_SECOND: i64 = 60;

/// Player coordinates saturate at this magnitude, millions of tiles from
/// the grid; the simulation behaves identically anywhere near the map.
pub const POS_LIMIT: i64 = 0x100_0000_0000;

/// Vertical bob saturates here (256 tiles up), far above any jump.
pub const Z_LIMIT: i64 = 0x100_0000;

/// Terminal falling speed (256 tiles per second).
pub const FALL_SPEED_LIMIT: i64 = 0x100_0000;

/// Gamepad bit for the primary action button (jump).
pub const BUTTON_ACTION: u8 = 1;

/// Gamepad bit for the view-toggle button.
pub const BUTTON_TOGGLE: u8 = 2;

/// Gamepad bit for turning left.
pub const BUTTON_LEFT: u8 = 16;

/// Gamepad bit for turning right.
pub const BUTTON_RIGHT: u8 = 32;

/// Gamepad bit for walking forward.
pub const BUTTON_UP: u8 = 64;

/// Gamepad bit for walking backward.
pub const BUTTON_DOWN: u8 = 128;

/// Which screen the renderer should draw.
#[derive(Clone, Copy, Debug, PartialEq, Eq, Structural)]
pub enum ViewMode {
    /// The ray-cast corridor view.
    FirstPerson,
    /// The overhead map.
    MapView,
    /// The player reached the exit door.
    Victory,
    /// The player stepped onto illusory terrain.
    Fooled,
}

/// The whole mutable simulation state: pose, velocities, view tag, victory
/// latch, and the previous gamepad byte for edge-triggered toggling.
#[derive(Clone, Copy, Debug, PartialEq, Eq, Structural)]
pub struct State {
    /// Which screen to draw.
    pub view: ViewMode,
    /// Latched once the exit door has been touched; keeps the one-shot
    /// victory signal from firing twice.
    pub game_won: bool,
    /// Player x, fixed-point tiles.
    pub player_x: i64,
    /// Player y, fixed-point tiles.
    pub player_y: i64,
    /// Height of the jump bob, fixed-point tiles, never negative.
    pub player_z: i64,
    /// Linear velocity, fixed-point tiles per tick.
    pub player_velocity: i64,
    /// Vertical velocity, fixed-point tiles per second.
    pub player_z_velocity: i64,
    /// Heading in angular units, kept in `[0, FULL_TURN)`.
    pub player_angle: i64,
    /// Angular velocity, angular units per tick.
    pub player_angular_velocity: i64,
    /// Gamepad byte seen by the previous toggle poll.
    pub previous_gamepad: u8,
}

/// 1 for a pressed button, 0 otherwise.
pub open spec fn spec_button(b: bool) -> int {
    if b {
        1
    } else {
        0
    }
}

/// Linear velocity after steering: grounded players not jumping this tick
/// steer afresh; airborne (or jumping) players keep their momentum.
pub open spec fn spec_steered_velocity(s: State, up: bool, down: bool, jump: bool) -> int {
    if s.player_z == 0 && !jump {
        STEP_SIZE * (spec_button(up) - spec_button(down))
    } else {
        s.player_velocity as int
    }
}

/// Angular velocity after steering, under the same grounded rule.
pub open spec fn spec_steered_angular(s: State, left: bool, right: bool, jump: bool) -> int {
    if s.player_z == 0 && !jump {
        ANGULAR_STEP * (spec_button(left) - spec_button(right))
    } else {
        s.player_angular_velocity as int
    }
}

/// One axis of position integration: add `trig * vel` tiles (both fixed
/// point) and saturate at the coordinate limit.
pub open spec fn spec_drift(pos: int, trig: int, vel: int) -> int {
    spec_clamp_abs(pos + (trig * vel) / (FP_ONE as int), POS_LIMIT as int)
}

/// Airborne drag: multiply by 975/1000, rounding toward negative infinity.
pub open spec fn spec_damp(v: int) -> int {
    (v * DRAG_NUM) / (DRAG_DEN as int)
}

/// Axis-separated collision resolution. The integrated destination
/// `(xi, yi)` is classified: open or illusory terrain accepts the move, the
/// exit door restores the pre-tick position, and a wall first tries each
/// single-axis sub-move before restoring both coordinates.
pub open spec fn spec_resolve(grid: Seq<u8>, px: int, py: int, xi: int, yi: int) -> (int, int) {
    let dest = spec_terrain_at(grid, xi, yi);
    if dest is Open || dest is Mirage {
        (xi, yi)
    } else if dest is Doorway {
        (px, py)
    } else {
        if spec_terrain_at(grid, xi, py) is Open {
            (xi, py)
        } else if spec_terrain_at(grid, px, yi) is Open {
            (px, yi)
        } else {
            (px, py)
        }
    }
}

/// View tag after stepping onto `dest`: the door shows victory, illusory
/// terrain shows the fooled screen, and walking back onto open ground
/// clears the fooled screen unless a victory is already latched.
pub open spec fn spec_view_after(view: ViewMode, won: bool, dest: Terrain) -> ViewMode {
    match dest {
        Terrain::Doorway => ViewMode::Victory,
        Terrain::Mirage => ViewMode::Fooled,
        Terrain::Open => if view is Fooled && !won {
            ViewMode::FirstPerson
        } else {
            view
        },
        Terrain::Wall => view,
    }
}

/// The complete state one tick later, given the five button states and the
/// (clamped) cosine and sine of the pre-tick heading.
pub open spec fn spec_update(
    s: State,
    grid: Seq<u8>,
    up: bool,
    down: bool,
    left: bool,
    right: bool,
    jump: bool,
    cos_raw: int,
    sin_raw: int,
) -> State {
    let cos = spec_clamp_abs(cos_raw, FP_ONE as int);
    let sin = spec_clamp_abs(sin_raw, FP_ONE as int);
    let v = spec_steered_velocity(s, up, down, jump);
    let w = spec_steered_angular(s, left, right, jump);
    let xi = spec_drift(s.player_x as int, cos, v);
    let yi = spec_drift(s.player_y as int, -sin, v);
    let dest = spec_terrain_at(grid, xi, yi);
    let pos = spec_resolve(grid, s.player_x as int, s.player_y as int, xi, yi);
    let vz0 = if jump && s.player_z == 0 {
        INITIAL_JUMP_SPEED as int
    } else {
        s.player_z_velocity as int
    };
    let v2 = if s.player_z > 0 {
        spec_damp(v)
    } else {
        v
    };
    let w2 = if s.player_z > 0 {
        spec_damp(w)
    } else {
        w
    };
    let z1 = s.player_z + vz0 / (TICKS_PER_SECOND as int);
    let vz1 = vz0 - GRAVITY_PER_TICK;
    State {
        view: spec_view_after(s.view, s.game_won, dest),
        game_won: s.game_won || dest is Doorway,
        player_x: pos.0 as i64,
        player_y: pos.1 as i64,
        player_z: if z1 <= 0 {
            0
        } else if z1 > Z_LIMIT {
            Z_LIMIT
        } else {
            z1 as i64
        },
        player_velocity: v2 as i64,
        player_z_velocity: if z1 <= 0 {
            0
        } else if vz1 < -FALL_SPEED_LIMIT {
            (-FALL_SPEED_LIMIT) as i64
        } else {
            vz1 as i64
        },
        player_angle: spec_wrap(s.player_angle + w) as i64,
        player_angular_velocity: w2 as i64,
        previous_gamepad: s.previous_gamepad,
    }
}

/// Whether this tick fires the one-shot victory signal: the player stepped
/// onto the exit door and no victory was latched yet.
pub open spec fn spec_update_signal(
    s: State,
    grid: Seq<u8>,
    up: bool,
    down: bool,
    left: bool,
    right: bool,
    jump: bool,
    cos_raw: int,
    sin_raw: int,
) -> bool {
    let cos = spec_clamp_abs(cos_raw, FP_ONE as int);
    let sin = spec_clamp_abs(sin_raw, FP_ONE as int);
    let v = spec_steered_velocity(s, up, down, jump);
    let xi = spec_drift(s.player_x as int, cos, v);
    let yi = spec_drift(s.player_y as int, -sin, v);
    spec_terrain_at(grid, xi, yi) is Doorway && !s.game_won
}

/// The view toggled between the first-person and overhead screens; the
/// terrain-driven screens are unaffected by the toggle button.
pub open spec fn spec_toggled(v: ViewMode) -> ViewMode {
    match v {
        ViewMode::FirstPerson => ViewMode::MapView,
        ViewMode::MapView => ViewMode::FirstPerson,
        ViewMode::Victory => ViewMode::Victory,
        ViewMode::Fooled => ViewMode::Fooled,
    }
}

impl State {
    /// Bounds every field must satisfy; constructors establish them and
    /// [`State::update`] preserves them.
    pub open spec fn wf(&self) -> bool {
        &&& -POS_LIMIT <= self.player_x <= POS_LIMIT
        &&& -POS_LIMIT <= self.player_y <= POS_LIMIT
        &&& 0 <= self.player_z <= Z_LIMIT
        &&& -STEP_SIZE <= self.player_velocity <= STEP_SIZE
        &&& -FALL_SPEED_LIMIT <= self.player_z_velocity <= INITIAL_JUMP_SPEED
        &&& 0 <= self.player_angle < FULL_TURN
        &&& -ANGULAR_STEP <= self.player_angular_velocity <= ANGULAR_STEP
    }

    /// The state a fresh game starts in: standing at the centre of tile
    /// (1, 1), facing a quarter turn below the x axis, grounded and still.
    pub fn new() -> (s: State)
        ensures
            s.wf(),
            s.view is FirstPerson,
            !s.game_won,
            s.player_x == 98304,
            s.player_y == 98304,
            s.player_z == 0,
            s.player_velocity == 0,
            s.player_z_velocity == 0,
            s.player_angle == 786432,
            s.player_angular_velocity == 0,
            s.previous_gamepad == 0,
    {
        State {
            view: ViewMode::FirstPerson,
            game_won: false,
            player_x: 98304,
            player_y: 98304,
            player_z: 0,
            player_velocity: 0,
            player_z_velocity: 0,
            player_angle: 786432,
            player_angular_velocity: 0,
            previous_gamepad: 0,
        }
    }

    /// Advances the simulation by one tick.
    ///
    /// `cos_angle` and `sin_angle` are the fixed-point cosine and sine of
    /// the pre-tick heading, supplied by the caller; they are clamped into
    /// `[-FP_ONE, FP_ONE]` and the postcondition holds whatever was passed.
    /// Returns whether the one-shot victory signal fires this tick.
    #[verifier::rlimit(100)]
    pub fn update(
        &mut self,
        map: &TileMap,
        up: bool,
        down: bool,
        left: bool,
        right: bool,
        jump: bool,
        cos_angle: i64,
        sin_angle: i64,
    ) -> (signal: bool)
        requires
            old(self).wf(),
            map.wf(),
        ensures
            *final(self) == spec_update(
                *old(self),
                map@,
                up,
                down,
                left,
                right,
                jump,
                cos_angle as int,
                sin_angle as int,
            ),
            signal == spec_update_signal(
                *old(self),
                map@,
                up,
                down,
                left,
                right,
                jump,
                cos_angle as int,
                sin_angle as int,
            ),
            final(self).wf(),
            // A tick that starts off a wall never ends on one.
            !(spec_terrain_at(map@, old(self).player_x as int, old(self).player_y as int)
                is Wall) ==> !(spec_terrain_at(
                map@,
                final(self).player_x as int,
                final(self).player_y as int,
            ) is Wall),
            // The exit door is not passable: it restores the pre-tick
            // position exactly, shows the victory screen, and latches.
            spec_update_dest(*old(self), map@, up, down, jump, cos_angle as int, sin_angle as int)
                is Doorway ==> final(self).player_x == old(self).player_x && final(self).player_y
                == old(self).player_y && final(self).view is Victory && final(self).game_won,
            // The victory signal fires exactly on a door step with no
            // victory latched yet, and the latch never clears.
            final(self).game_won == (old(self).game_won || spec_update_dest(
                *old(self),
                map@,
                up,
                down,
                jump,
                cos_angle as int,
                sin_angle as int,
            ) is Doorway),
            // A grounded jump leaves the ground with upward speed.
            old(self).player_z == 0 && jump ==> final(self).player_z > 0
                && final(self).player_z_velocity > 0,
            // The bob height never dips below the ground, and a landing
            // zeroes both the height and the vertical speed exactly.
            final(self).player_z >= 0,
            final(self).player_z == 0 ==> final(self).player_z_velocity == 0,
            // Grounded steering: one tick of turning from rest changes the
            // heading by exactly one angular step per pressed button.
            old(self).player_z == 0 && !jump ==> final(self).player_angle == spec_wrap(
                old(self).player_angle + ANGULAR_STEP * (spec_button(left) - spec_button(right)),
            ),
            // Opposed walk buttons cancel: the position does not move.
            old(self).player_z == 0 && !jump && up == down ==> final(self).player_x == old(
                self
            ).player_x && final(self).player_y == old(self).player_y,
    {
        let ghost s0 = *self;
        let prev_x = self.player_x;
        let prev_y = self.player_y;
        let cos = clamp_abs(cos_angle, FP_ONE);
        let sin = clamp_abs(sin_angle, FP_ONE);

        if self.player_z == 0 && !jump {
            let forward: i64 = if up {
                STEP_SIZE
            } else {
                0
            };
            let backward: i64 = if down {
                STEP_SIZE
            } else {
                0
            };
            self.player_velocity = forward - backward;
            let turn_left: i64 = if left {
                ANGULAR_STEP
            } else {
                0
            };
            let turn_right: i64 = if right {
                ANGULAR_STEP
            } else {
                0
            };
            self.player_angular_velocity = turn_left - turn_right;
        }
        let v = self.player_velocity;
        let w = self.player_angular_velocity;

        proof {
            assert(-0x1000_0000 <= (cos as int) * (v as int) <= 0x1000_0000) by (nonlinear_arith)
                requires
                    -65536 <= cos as int <= 65536,
                    -2949 <= v as int <= 2949,
            ;
            assert(-0x1000_0000 <= (-(sin as int)) * (v as int) <= 0x1000_0000)
                by (nonlinear_arith)
                requires
                    -65536 <= sin as int <= 65536,
                    -2949 <= v as int <= 2949,
            ;
        }
        let xi = clamp_abs(prev_x + floor_div(cos * v, FP_ONE), POS_LIMIT);
        let yi = clamp_abs(prev_y + floor_div(-sin * v, FP_ONE), POS_LIMIT);
        self.player_angle = wrap_angle(self.player_angle + w);

        let dest = read_map(map, xi, yi);
        let signal: bool = dest == Terrain::Doorway && !self.game_won;
        match dest {
            Terrain::Open => {
                self.player_x = xi;
                self.player_y = yi;
                if self.view == ViewMode::Fooled && !self.game_won {
                    self.view = ViewMode::FirstPerson;
                }
            },
            Terrain::Mirage => {
                self.player_x = xi;
                self.player_y = yi;
                self.view = ViewMode::Fooled;
            },
            Terrain::Doorway => {
                self.view = ViewMode::Victory;
                self.game_won = true;
            },
            Terrain::Wall => {
                if read_map(map, xi, prev_y) == Terrain::Open {
                    self.player_x = xi;
                } else if read_map(map, prev_x, yi) == Terrain::Open {
                    self.player_y = yi;
                }
            },
        }

        if jump && self.player_z == 0 {
            self.player_z_velocity = INITIAL_JUMP_SPEED;
        }

        if self.player_z > 0 {
            self.player_velocity = floor_div(v * DRAG_NUM, DRAG_DEN);
            self.player_angular_velocity = floor_div(w * DRAG_NUM, DRAG_DEN);
        }

        let z1 = self.player_z + floor_div(self.player_z_velocity, TICKS_PER_SECOND);
        if z1 <= 0 {
            self.player_z = 0;
            self.player_z_velocity = 0;
        } else {
            self.player_z = if z1 > Z_LIMIT {
                Z_LIMIT
            } else {
                z1
            };
            let vz1 = self.player_z_velocity - GRAVITY_PER_TICK;
            self.player_z_velocity = if vz1 < -FALL_SPEED_LIMIT {
                -FALL_SPEED_LIMIT
            } else {
                vz1
            };
        }

        proof {
            let su = spec_update(
                s0,
                map@,
                up,
                down,
                left,
                right,
                jump,
                cos_angle as int,
                sin_angle as int,
            );
            assert(self.player_x == su.player_x && self.player_y == su.player_y);
            assert(self.player_z == su.player_z && self.player_z_velocity == su.player_z_velocity);
            assert(self.player_velocity == su.player_velocity);
            assert(self.player_angular_velocity == su.player_angular_velocity);
            assert(self.player_angle == su.player_angle);
            assert(self.view == su.view && self.game_won == su.game_won);
            assert(*self == su);
            if s0.player_z == 0 && !jump && up == down {
                assert((cos as int) * (v as int) == 0 && (-(sin as int)) * (v as int) == 0)
                    by (nonlinear_arith)
                    requires
                        v as int == 0,
                ;
                assert(self.player_x == s0.player_x && self.player_y == s0.player_y);
            }
        }
        signal
    }

    /// Applies the view-toggle button by its rising edge: a freshly pressed
    /// toggle bit swaps the first-person and overhead screens, a held one
    /// does nothing, and the byte is remembered for the next poll.
    pub fn toggle_map_view(&mut self, gamepad: u8)
        ensures
            *final(self) == (State {
                view: if (gamepad & (gamepad ^ old(self).previous_gamepad) & BUTTON_TOGGLE) != 0 {
                    spec_toggled(old(self).view)
                } else {
                    old(self).view
                },
                previous_gamepad: gamepad,
                ..*old(self)
            }),
    {
        if (gamepad & (gamepad ^ self.previous_gamepad) & BUTTON_TOGGLE) != 0 {
            self.view = match self.view {
                ViewMode::FirstPerson => ViewMode::MapView,
                ViewMode::MapView => ViewMode::FirstPerson,
                ViewMode::Victory => ViewMode::Victory,
                ViewMode::Fooled => ViewMode::Fooled,
            };
        }
        self.previous_gamepad = gamepad;
    }
}

/// The terrain of the integrated (pre-collision) destination tile of a
/// tick; names the cell the update's terrain transitions are driven by.
pub open spec fn spec_update_dest(
    s: State,
    grid: Seq<u8>,
    up: bool,
    down: bool,
    jump: bool,
    cos_raw: int,
    sin_raw: int,
) -> Terrain {
    let cos = spec_clamp_abs(cos_raw, FP_ONE as int);
    let sin = spec_clamp_abs(sin_raw, FP_ONE as int);
    let v = spec_steered_velocity(s, up, down, jump);
    let xi = spec_drift(s.player_x as int, cos, v);
    let yi = spec_drift(s.player_y as int, -sin, v);
    spec_terrain_at(grid, xi, yi)
}

/// Splits a gamepad byte into the five button states, in the order the
/// update consumes them: up, down, left, right, action.
pub fn read_buttons(gamepad: u8) -> (b: (bool, bool, bool, bool, bool))
    ensures
        b.0 == ((gamepad & BUTTON_UP) != 0),
        b.1 == ((gamepad & BUTTON_DOWN) != 0),
        b.2 == ((gamepad & BUTTON_LEFT) != 0),
        b.3 == ((gamepad & BUTTON_RIGHT) != 0),
        b.4 == ((gamepad & BUTTON_ACTION) != 0),
{
    (
        (gamepad & BUTTON_UP) != 0,
        (gamepad & BUTTON_DOWN) != 0,
        (gamepad & BUTTON_LEFT) != 0,
        (gamepad & BUTTON_RIGHT) != 0,
        (gamepad & BUTTON_ACTION) != 0,
    )
}

/// Once the victory signal has fired, no later tick fires it again: the
/// first firing latches `game_won`, and the latch never clears.
pub proof fn lemma_victory_signal_once(
    s: State,
    grid: Seq<u8>,
    up1: bool,
    down1: bool,
    left1: bool,
    right1: bool,
    jump1: bool,
    cos1: int,
    sin1: int,
    up2: bool,
    down2: bool,
    left2: bool,
    right2: bool,
    jump2: bool,
    cos2: int,
    sin2: int,
)
    requires
        spec_update_signal(s, grid, up1, down1, left1, right1, jump1, cos1, sin1),
    ensures
        !spec_update_signal(
            spec_update(s, grid, up1, down1, left1, right1, jump1, cos1, sin1),
            grid,
            up2,
            down2,
            left2,
            right2,
            jump2,
            cos2,
            sin2,
        ),
{
}

} // verus!
