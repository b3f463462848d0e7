//! Screen-space ray casting.
//!
//! One ray is cast per screen column, fanned evenly across the field of
//! view around the player's heading. Each ray runs two independent
//! digital-differential-analyzer searches — one along the family of
//! horizontal grid lines, one along the vertical family — and the nearer
//! intersection wins. A search walks at most [`MAX_RAY_STEPS`] grid lines,
//! so it terminates on every angle; running out of steps returns the
//! offsets reached so far, read as a very distant wall.
//!
//! The searches need the tangent of the ray's angle (and its reciprocal),
//! which the caller supplies as fixed-point values in [`RaySlopes`]; they
//! are clamped into `[-SLOPE_LIMIT, SLOPE_LIMIT]`, and every contract holds
//! for arbitrary passed values. A clamped slope plays the role an infinite
//! tangent has at a cardinal angle: the first probe leaves the grid, the
//! search reports a distant wall, and the other family's search wins.
//!
//! A stopping cell that is neither open nor a plain wall (the doorway or a
//! mirage) is reported as a wall at the fixed [`FAR_DISTANCE`], not under
//! its own terrain tag. This deliberately preserves the behaviour the
//! renderer was written against: doors are optically opaque but thin and
//! distant, and a renderer arm matching on a ray's `Doorway` tag is never
//! reached.

use vstd::prelude::*;

verus! {

use crate::angle::ANGLE_STEP;
use crate::angle::FULL_TURN;
use crate::angle::HALF_FOV;
use crate::angle::HALF_TURN;
use crate::angle::QUARTER_TURN;
use crate::angle::lemma_wrap_periodic;
use crate::angle::spec_wrap;
use crate::angle::wrap_angle;
use crate::fixed::FP_ONE;
use crate::fixed::clamp_abs;
use crate::fixed::floor_div;
use crate::fixed::fp_ceil;
use crate::fixed::fp_distance;
use crate::fixed::fp_floor;
use crate::fixed::spec_clamp_abs;
use crate::fixed::spec_distance;
use crate::fixed::spec_fp_ceil;
use crate::fixed::spec_fp_floor;
use crate::map::Orientation;
use crate::map::Terrain;
use crate::map::TileMap;
use crate::map::read_map;
use crate::map::spec_terrain_at;
use crate::state::POS_LIMIT;
use crate::state::State;
use vstd::arithmetic::div_mod::lemma_div_is_ordered;
use vstd::arithmetic::div_mod::lemma_div_multiples_vanish;

/// Magnitude bound for the slopes a search walks with; a slope beyond it
/// leaves the grid in a single step anyway.
pub const SLOPE_LIMIT: i64 = 0x1_0000_0000;

/// A search probes at most this many grid lines before giving up.
pub const MAX_RAY_STEPS: usize = 256;

/// The distance reported for a blocking cell that is not a plain wall
/// (100 tiles, in fixed point).
pub const FAR_DISTANCE: i64 = 6553600;

/// Projected wall height numerator (100, in fixed point).
pub const WALL_HEIGHT: i64 = 6553600;

/// Height reported when the projection denominator degenerates to zero or
/// below: an effectively infinitely tall column.
pub const HEIGHT_CAP: i64 = 0x7fff_ffff;

/// Upper bound on every distance a search can report.
pub const DISTANCE_LIMIT: i64 = 0x400_0000_0000;

/// The fixed-point tangent of a ray's angle and its reciprocal, supplied
/// per column by the caller.
#[derive(Clone, Copy, Debug, PartialEq, Eq, Structural)]
pub struct RaySlopes {
    /// Tangent of the ray angle, fixed point.
    pub tan: i64,
    /// Reciprocal of that tangent, fixed point.
    pub inv_tan: i64,
}

/// One column's intersection result.
#[derive(Clone, Copy, Debug, PartialEq, Eq, Structural)]
pub struct Ray {
    /// The ray's angle minus the player's heading, in angular units; feeds
    /// the fisheye correction.
    pub angle_diff: i64,
    /// Fixed-point distance from the player to the intersection.
    pub distance: i64,
    /// What the ray stopped on (always a wall under the resolution rule
    /// documented in this module).
    pub terrain: Terrain,
    /// Which grid-line family produced the intersection.
    pub orientation: Orientation,
}

/// Whether an angle points toward decreasing rows of the grid, read from
/// its half turn: the canonical angle lies in `[HALF_TURN, FULL_TURN)`.
pub open spec fn spec_points_up(angle: int) -> bool {
    spec_wrap(angle) >= HALF_TURN
}

/// Whether an angle points toward increasing columns, read the same way a
/// quarter turn later.
pub open spec fn spec_points_right(angle: int) -> bool {
    spec_wrap(angle - QUARTER_TURN) >= HALF_TURN
}

/// One digital-differential-analyzer search: starting `(nx, ny)` from the
/// player and extending by `(dx, dy)` per step, probe the map at each
/// reached grid line (`adj_x`/`adj_y` shift the probe one tile when the
/// ray walks toward decreasing coordinates). Stops on the first non-open
/// cell: a wall yields the offsets reached (third component false), any
/// other blocking terrain sets the third component; running out of fuel
/// yields the offsets reached, like a wall.
pub open spec fn spec_ray_scan(
    grid: Seq<u8>,
    px: int,
    py: int,
    adj_x: int,
    adj_y: int,
    nx: int,
    ny: int,
    dx: int,
    dy: int,
    fuel: nat,
) -> (int, int, bool)
    decreases fuel,
{
    if fuel == 0 {
        (nx, ny, false)
    } else {
        let t = spec_terrain_at(grid, px + nx + adj_x, py + ny + adj_y);
        if t is Wall {
            (nx, ny, false)
        } else if !(t is Open) {
            (nx, ny, true)
        } else {
            spec_ray_scan(grid, px, py, adj_x, adj_y, nx + dx, ny + dy, dx, dy, (fuel - 1) as nat)
        }
    }
}

/// The horizontal-grid-line search for a ray at `angle`, as a function of
/// the pose, the supplied reciprocal tangent, and the grid.
pub open spec fn spec_horizontal_intersection(
    grid: Seq<u8>,
    px: int,
    py: int,
    pangle: int,
    angle: int,
    inv_tan_raw: int,
) -> Ray {
    let it = spec_clamp_abs(inv_tan_raw, SLOPE_LIMIT as int);
    let up = spec_points_up(angle);
    let first_y = if up {
        spec_fp_ceil(py) - py
    } else {
        spec_fp_floor(py) - py
    };
    let first_x = (-first_y * it) / (FP_ONE as int);
    let dy: int = if up {
        FP_ONE as int
    } else {
        -(FP_ONE as int)
    };
    let dx: int = if up {
        -it
    } else {
        it
    };
    let adj_y: int = if up {
        0
    } else {
        -(FP_ONE as int)
    };
    let s = spec_ray_scan(grid, px, py, 0, adj_y, first_x, first_y, dx, dy, MAX_RAY_STEPS as nat);
    Ray {
        angle_diff: (angle - pangle) as i64,
        distance: (if s.2 {
            FAR_DISTANCE as int
        } else {
            spec_distance(s.0, s.1)
        }) as i64,
        terrain: Terrain::Wall,
        orientation: Orientation::Horizontal,
    }
}

/// The vertical-grid-line search: the symmetric construction, using the
/// tangent itself and a quarter-turn-shifted facing test.
pub open spec fn spec_vertical_intersection(
    grid: Seq<u8>,
    px: int,
    py: int,
    pangle: int,
    angle: int,
    tan_raw: int,
) -> Ray {
    let tn = spec_clamp_abs(tan_raw, SLOPE_LIMIT as int);
    let right = spec_points_right(angle);
    let first_x = if right {
        spec_fp_ceil(px) - px
    } else {
        spec_fp_floor(px) - px
    };
    let first_y = (-first_x * tn) / (FP_ONE as int);
    let dx: int = if right {
        FP_ONE as int
    } else {
        -(FP_ONE as int)
    };
    let dy: int = if right {
        -tn
    } else {
        tn
    };
    let adj_x: int = if right {
        0
    } else {
        -(FP_ONE as int)
    };
    let s = spec_ray_scan(grid, px, py, adj_x, 0, first_x, first_y, dx, dy, MAX_RAY_STEPS as nat);
    Ray {
        angle_diff: (angle - pangle) as i64,
        distance: (if s.2 {
            FAR_DISTANCE as int
        } else {
            spec_distance(s.0, s.1)
        }) as i64,
        terrain: Terrain::Wall,
        orientation: Orientation::Vertical,
    }
}

/// The winning intersection for one ray: the nearer of the two searches,
/// the horizontal one on ties.
pub open spec fn spec_raycast(
    grid: Seq<u8>,
    px: int,
    py: int,
    pangle: int,
    angle: int,
    tan_raw: int,
    inv_tan_raw: int,
) -> Ray {
    let v = spec_vertical_intersection(grid, px, py, pangle, angle, tan_raw);
    let h = spec_horizontal_intersection(grid, px, py, pangle, angle, inv_tan_raw);
    if v.distance < h.distance {
        v
    } else {
        h
    }
}

/// Projected wall height for a ray: the wall-height constant over the
/// fisheye-corrected distance (the raw distance times the cosine of the
/// ray's offset from the heading). A degenerate denominator caps out.
pub open spec fn spec_wall_height(dist: int, cos_raw: int) -> int {
    let cos = spec_clamp_abs(cos_raw, FP_ONE as int);
    let denom = (dist * cos) / (FP_ONE as int);
    if denom <= 0 {
        HEIGHT_CAP as int
    } else {
        (WALL_HEIGHT as int) / denom
    }
}

/// A quotient of a bounded product by a positive divisor stays within the
/// matching bound.
proof fn lemma_div_bounds(num: int, bound: int, d: int)
    requires
        0 < d,
        0 <= bound,
        -(bound * d) <= num <= bound * d,
    ensures
        -bound <= num / d <= bound,
{
    assert(bound * d == d * bound) by (nonlinear_arith);
    assert(-(bound * d) == d * -bound) by (nonlinear_arith);
    lemma_div_is_ordered(-(bound * d), num, d);
    lemma_div_is_ordered(num, bound * d, d);
    lemma_div_multiples_vanish(bound, d);
    lemma_div_multiples_vanish(-bound, d);
}

/// Runs one bounded search with the map probes shifted by
/// `(adj_x, adj_y)`; the engine shared by the two intersection searches.
#[verifier::loop_isolation(false)]
fn ray_scan(
    map: &TileMap,
    px: i64,
    py: i64,
    adj_x: i64,
    adj_y: i64,
    first_x: i64,
    first_y: i64,
    dx: i64,
    dy: i64,
) -> (res: (i64, i64, bool))
    requires
        map.wf(),
        -POS_LIMIT <= px <= POS_LIMIT,
        -POS_LIMIT <= py <= POS_LIMIT,
        -FP_ONE <= adj_x <= 0,
        -FP_ONE <= adj_y <= 0,
        -SLOPE_LIMIT <= first_x <= SLOPE_LIMIT,
        -SLOPE_LIMIT <= first_y <= SLOPE_LIMIT,
        -SLOPE_LIMIT <= dx <= SLOPE_LIMIT,
        -SLOPE_LIMIT <= dy <= SLOPE_LIMIT,
    ensures
        ({
            let s = spec_ray_scan(
                map@,
                px as int,
                py as int,
                adj_x as int,
                adj_y as int,
                first_x as int,
                first_y as int,
                dx as int,
                dy as int,
                MAX_RAY_STEPS as nat,
            );
            res.0 == s.0 && res.1 == s.1 && res.2 == s.2
        }),
        -0x200_0000_0000 <= res.0 <= 0x200_0000_0000,
        -0x200_0000_0000 <= res.1 <= 0x200_0000_0000,
{
    let ghost overall = spec_ray_scan(
        map@,
        px as int,
        py as int,
        adj_x as int,
        adj_y as int,
        first_x as int,
        first_y as int,
        dx as int,
        dy as int,
        MAX_RAY_STEPS as nat,
    );
    let mut nx = first_x;
    let mut ny = first_y;
    let mut i: usize = 0;
    while i < MAX_RAY_STEPS
        invariant
            i <= MAX_RAY_STEPS,
            -(i as int + 1) * (SLOPE_LIMIT as int) <= nx as int <= (i as int + 1) * (
            SLOPE_LIMIT as int),
            -(i as int + 1) * (SLOPE_LIMIT as int) <= ny as int <= (i as int + 1) * (
            SLOPE_LIMIT as int),
            spec_ray_scan(
                map@,
                px as int,
                py as int,
                adj_x as int,
                adj_y as int,
                nx as int,
                ny as int,
                dx as int,
                dy as int,
                (MAX_RAY_STEPS - i) as nat,
            ) == overall,
        decreases MAX_RAY_STEPS - i,
    {
        let t = read_map(map, nx + px + adj_x, ny + py + adj_y);
        if t == Terrain::Wall {
            return (nx, ny, false);
        }
        if t != Terrain::Open {
            return (nx, ny, true);
        }
        nx = nx + dx;
        ny = ny + dy;
        i = i + 1;
    }
    (nx, ny, false)
}

impl State {
    /// Walks the ray at `angle` along successive horizontal grid lines and
    /// returns the first wall hit, with the accumulated offset distance.
    /// `inv_tan` is the fixed-point reciprocal tangent of `angle`.
    pub fn horizontal_intersection(&self, map: &TileMap, angle: i64, inv_tan: i64) -> (r: Ray)
        requires
            self.wf(),
            map.wf(),
            -0x1000_0000 <= angle <= 0x1000_0000,
        ensures
            r == spec_horizontal_intersection(
                map@,
                self.player_x as int,
                self.player_y as int,
                self.player_angle as int,
                angle as int,
                inv_tan as int,
            ),
            0 <= r.distance <= DISTANCE_LIMIT,
            r.terrain is Wall,
    {
        let it = clamp_abs(inv_tan, SLOPE_LIMIT);
        let up = wrap_angle(angle) >= HALF_TURN;
        let first_y = if up {
            fp_ceil(self.player_y) - self.player_y
        } else {
            fp_floor(self.player_y) - self.player_y
        };
        proof {
            assert(-(0x1_0000_0000_0000 as int) <= -(first_y as int) * (it as int) <= (
            0x1_0000_0000_0000 as int)) by (nonlinear_arith)
                requires
                    -65536 <= first_y as int <= 65536,
                    -0x1_0000_0000 <= it as int <= 0x1_0000_0000,
            ;
            lemma_div_bounds(
                -(first_y as int) * (it as int),
                SLOPE_LIMIT as int,
                FP_ONE as int,
            );
        }
        let first_x = floor_div(-first_y * it, FP_ONE);
        let dy: i64 = if up {
            FP_ONE
        } else {
            -FP_ONE
        };
        let dx: i64 = if up {
            -it
        } else {
            it
        };
        let adj_y: i64 = if up {
            0
        } else {
            -FP_ONE
        };
        let s = ray_scan(map, self.player_x, self.player_y, 0, adj_y, first_x, first_y, dx, dy);
        let distance = if s.2 {
            FAR_DISTANCE
        } else {
            fp_distance(s.0, s.1)
        };
        proof {
            lemma_distance_within_limit(s.0 as int, s.1 as int);
        }
        Ray {
            angle_diff: angle - self.player_angle,
            distance,
            terrain: Terrain::Wall,
            orientation: Orientation::Horizontal,
        }
    }

    /// Walks the ray at `angle` along successive vertical grid lines: the
    /// symmetric search, driven by the fixed-point tangent itself.
    pub fn vertical_intersection(&self, map: &TileMap, angle: i64, tan: i64) -> (r: Ray)
        requires
            self.wf(),
            map.wf(),
            -0x1000_0000 <= angle <= 0x1000_0000,
        ensures
            r == spec_vertical_intersection(
                map@,
                self.player_x as int,
                self.player_y as int,
                self.player_angle as int,
                angle as int,
                tan as int,
            ),
            0 <= r.distance <= DISTANCE_LIMIT,
            r.terrain is Wall,
    {
        let tn = clamp_abs(tan, SLOPE_LIMIT);
        let right = wrap_angle(angle - QUARTER_TURN) >= HALF_TURN;
        let first_x = if right {
            fp_ceil(self.player_x) - self.player_x
        } else {
            fp_floor(self.player_x) - self.player_x
        };
        proof {
            assert(-(0x1_0000_0000_0000 as int) <= -(first_x as int) * (tn as int) <= (
            0x1_0000_0000_0000 as int)) by (nonlinear_arith)
                requires
                    -65536 <= first_x as int <= 65536,
                    -0x1_0000_0000 <= tn as int <= 0x1_0000_0000,
            ;
            lemma_div_bounds(
                -(first_x as int) * (tn as int),
                SLOPE_LIMIT as int,
                FP_ONE as int,
            );
        }
        let first_y = floor_div(-first_x * tn, FP_ONE);
        let dx: i64 = if right {
            FP_ONE
        } else {
            -FP_ONE
        };
        let dy: i64 = if right {
            -tn
        } else {
            tn
        };
        let adj_x: i64 = if right {
            0
        } else {
            -FP_ONE
        };
        let s = ray_scan(map, self.player_x, self.player_y, adj_x, 0, first_x, first_y, dx, dy);
        let distance = if s.2 {
            FAR_DISTANCE
        } else {
            fp_distance(s.0, s.1)
        };
        proof {
            lemma_distance_within_limit(s.0 as int, s.1 as int);
        }
        Ray {
            angle_diff: angle - self.player_angle,
            distance,
            terrain: Terrain::Wall,
            orientation: Orientation::Vertical,
        }
    }

    /// Casts one ray: runs both searches and returns the nearer
    /// intersection (the horizontal one on ties).
    pub fn raycast(&self, map: &TileMap, angle: i64, slopes: RaySlopes) -> (r: Ray)
        requires
            self.wf(),
            map.wf(),
            -0x1000_0000 <= angle <= 0x1000_0000,
        ensures
            r == spec_raycast(
                map@,
                self.player_x as int,
                self.player_y as int,
                self.player_angle as int,
                angle as int,
                slopes.tan as int,
                slopes.inv_tan as int,
            ),
            0 <= r.distance <= DISTANCE_LIMIT,
            r.terrain is Wall,
    {
        let vertical = self.vertical_intersection(map, angle, slopes.tan);
        let horizontal = self.horizontal_intersection(map, angle, slopes.inv_tan);
        if vertical.distance < horizontal.distance {
            vertical
        } else {
            horizontal
        }
    }

    /// Casts one ray per screen column, fanned evenly across the field of
    /// view from half a field left of the heading. `slopes[i]` must carry
    /// the tangent data for column `i`'s angle,
    /// `player_angle + HALF_FOV - i * ANGLE_STEP`.
    pub fn get_rays(&self, map: &TileMap, slopes: &Vec<RaySlopes>) -> (rays: Vec<Ray>)
        requires
            self.wf(),
            map.wf(),
            slopes@.len() == crate::SCREEN_SIZE as int,
        ensures
            rays@.len() == crate::SCREEN_SIZE as int,
            forall|i: int|
                0 <= i < crate::SCREEN_SIZE as int ==> rays@[i] == spec_raycast(
                    map@,
                    self.player_x as int,
                    self.player_y as int,
                    self.player_angle as int,
                    self.player_angle + HALF_FOV - i * ANGLE_STEP,
                    slopes@[i].tan as int,
                    slopes@[i].inv_tan as int,
                ),
    {
        let mut rays: Vec<Ray> = Vec::new();
        let mut idx: usize = 0;
        while idx < crate::SCREEN_SIZE as usize
            invariant
                idx <= crate::SCREEN_SIZE as int,
                self.wf(),
                map.wf(),
                slopes@.len() == crate::SCREEN_SIZE as int,
                rays@.len() == idx as int,
                forall|i: int|
                    0 <= i < idx as int ==> rays@[i] == spec_raycast(
                        map@,
                        self.player_x as int,
                        self.player_y as int,
                        self.player_angle as int,
                        self.player_angle + HALF_FOV - i * ANGLE_STEP,
                        slopes@[i].tan as int,
                        slopes@[i].inv_tan as int,
                    ),
            decreases crate::SCREEN_SIZE as int - idx as int,
        {
            let angle = self.player_angle + HALF_FOV - (idx as i64) * ANGLE_STEP;
            let ray = self.raycast(map, angle, slopes[idx]);
            rays.push(ray);
            idx = idx + 1;
        }
        rays
    }
}

/// Any scan offsets a search can reach give a distance within
/// [`DISTANCE_LIMIT`].
proof fn lemma_distance_within_limit(a: int, b: int)
    requires
        -0x200_0000_0000 <= a <= 0x200_0000_0000,
        -0x200_0000_0000 <= b <= 0x200_0000_0000,
    ensures
        0 <= spec_distance(a, b) <= DISTANCE_LIMIT,
{
    assert(0 <= a * a + b * b) by (nonlinear_arith);
    crate::fixed::lemma_sqrt_exists(a * a + b * b);
    let r = spec_distance(a, b);
    assert(a * a + b * b < (0x400_0000_0000 as int) * (0x400_0000_0000 as int))
        by (nonlinear_arith)
        requires
            -0x200_0000_0000 <= a <= 0x200_0000_0000,
            -0x200_0000_0000 <= b <= 0x200_0000_0000,
    ;
    if r > DISTANCE_LIMIT {
        assert((0x400_0000_0000 as int) * (0x400_0000_0000 as int) <= r * r)
            by (nonlinear_arith)
            requires
                r > 0x400_0000_0000,
        ;
    }
}

impl Ray {
    /// The projected pixel height of this ray's wall strip. `cos_diff` is
    /// the fixed-point cosine of [`Ray::angle_diff`], supplied by the
    /// caller; the fisheye correction divides the raw distance by it.
    pub fn wall_height(&self, cos_diff: i64) -> (h: i64)
        requires
            0 <= self.distance <= DISTANCE_LIMIT,
        ensures
            h == spec_wall_height(self.distance as int, cos_diff as int),
            0 <= h <= HEIGHT_CAP,
    {
        let cos = clamp_abs(cos_diff, FP_ONE);
        proof {
            assert(-(0x4000_0000_0000_0000 as int) <= (self.distance as int) * (cos as int) <= (
            0x4000_0000_0000_0000 as int)) by (nonlinear_arith)
                requires
                    0 <= self.distance as int <= 0x400_0000_0000,
                    -65536 <= cos as int <= 65536,
            ;
            lemma_div_bounds(
                (self.distance as int) * (cos as int),
                0x4000_0000_0000 as int,
                FP_ONE as int,
            );
        }
        let denom = floor_div(self.distance * cos, FP_ONE);
        if denom <= 0 {
            HEIGHT_CAP
        } else {
            proof {
                vstd::arithmetic::div_mod::lemma_div_pos_is_pos(WALL_HEIGHT as int, denom as int);
                vstd::arithmetic::div_mod::lemma_div_nonincreasing(
                    WALL_HEIGHT as int,
                    denom as int,
                );
            }
            let h = floor_div(WALL_HEIGHT, denom);
            h
        }
    }
}

/// A search that starts within `b` of the player and extends by at most
/// [`SLOPE_LIMIT`] per step ends within `b` plus a step bound's worth.
proof fn lemma_ray_scan_bounded(
    grid: Seq<u8>,
    px: int,
    py: int,
    adj_x: int,
    adj_y: int,
    nx: int,
    ny: int,
    dx: int,
    dy: int,
    fuel: nat,
    b: int,
)
    requires
        0 <= b,
        -b <= nx <= b,
        -b <= ny <= b,
        -SLOPE_LIMIT <= dx <= SLOPE_LIMIT,
        -SLOPE_LIMIT <= dy <= SLOPE_LIMIT,
    ensures
        ({
            let s = spec_ray_scan(grid, px, py, adj_x, adj_y, nx, ny, dx, dy, fuel);
            -(b + fuel * SLOPE_LIMIT) <= s.0 <= b + fuel * SLOPE_LIMIT && -(b + fuel
                * SLOPE_LIMIT) <= s.1 <= b + fuel * SLOPE_LIMIT
        }),
    decreases fuel,
{
    if fuel > 0 {
        let t = spec_terrain_at(grid, px + nx + adj_x, py + ny + adj_y);
        if t is Open {
            lemma_ray_scan_bounded(
                grid,
                px,
                py,
                adj_x,
                adj_y,
                nx + dx,
                ny + dy,
                dx,
                dy,
                (fuel - 1) as nat,
                b + SLOPE_LIMIT,
            );
        }
    }
}

/// Both intersection searches yield a non-negative distance for every
/// pose, every angle and every supplied slope, and so does the winning
/// ray; the step bound is part of their very definition, so every search
/// terminates.
pub proof fn lemma_intersection_distances_nonneg(
    grid: Seq<u8>,
    px: int,
    py: int,
    pangle: int,
    angle: int,
    tan_raw: int,
    inv_tan_raw: int,
)
    ensures
        0 <= spec_horizontal_intersection(grid, px, py, pangle, angle, inv_tan_raw).distance,
        0 <= spec_vertical_intersection(grid, px, py, pangle, angle, tan_raw).distance,
        0 <= spec_raycast(grid, px, py, pangle, angle, tan_raw, inv_tan_raw).distance,
{
    lemma_first_leg_bounds(py, inv_tan_raw);
    lemma_first_leg_bounds(px, tan_raw);
    let it = spec_clamp_abs(inv_tan_raw, SLOPE_LIMIT as int);
    let tn = spec_clamp_abs(tan_raw, SLOPE_LIMIT as int);
    let up = spec_points_up(angle);
    let right = spec_points_right(angle);
    let h_fy = if up {
        spec_fp_ceil(py) - py
    } else {
        spec_fp_floor(py) - py
    };
    let h_fx = (-h_fy * it) / (FP_ONE as int);
    let h_dy: int = if up {
        FP_ONE as int
    } else {
        -(FP_ONE as int)
    };
    let h_dx: int = if up {
        -it
    } else {
        it
    };
    let h_adj: int = if up {
        0
    } else {
        -(FP_ONE as int)
    };
    lemma_ray_scan_bounded(
        grid,
        px,
        py,
        0,
        h_adj,
        h_fx,
        h_fy,
        h_dx,
        h_dy,
        MAX_RAY_STEPS as nat,
        SLOPE_LIMIT as int,
    );
    let hs = spec_ray_scan(
        grid,
        px,
        py,
        0,
        h_adj,
        h_fx,
        h_fy,
        h_dx,
        h_dy,
        MAX_RAY_STEPS as nat,
    );
    lemma_distance_within_limit(hs.0, hs.1);
    let v_fx = if right {
        spec_fp_ceil(px) - px
    } else {
        spec_fp_floor(px) - px
    };
    let v_fy = (-v_fx * tn) / (FP_ONE as int);
    let v_dx: int = if right {
        FP_ONE as int
    } else {
        -(FP_ONE as int)
    };
    let v_dy: int = if right {
        -tn
    } else {
        tn
    };
    let v_adj: int = if right {
        0
    } else {
        -(FP_ONE as int)
    };
    lemma_ray_scan_bounded(
        grid,
        px,
        py,
        v_adj,
        0,
        v_fx,
        v_fy,
        v_dx,
        v_dy,
        MAX_RAY_STEPS as nat,
        SLOPE_LIMIT as int,
    );
    let vs = spec_ray_scan(
        grid,
        px,
        py,
        v_adj,
        0,
        v_fx,
        v_fy,
        v_dx,
        v_dy,
        MAX_RAY_STEPS as nat,
    );
    lemma_distance_within_limit(vs.0, vs.1);
}

/// The first grid-line crossing of a search lies within one tile of the
/// player, and projecting it through a clamped slope stays within the
/// slope limit.
proof fn lemma_first_leg_bounds(p: int, slope_raw: int)
    ensures
        0 <= spec_fp_ceil(p) - p < FP_ONE,
        -(FP_ONE as int) < spec_fp_floor(p) - p <= 0,
        ({
            let sl = spec_clamp_abs(slope_raw, SLOPE_LIMIT as int);
            let leg_c = (-(spec_fp_ceil(p) - p) * sl) / (FP_ONE as int);
            let leg_f = (-(spec_fp_floor(p) - p) * sl) / (FP_ONE as int);
            -SLOPE_LIMIT <= leg_c <= SLOPE_LIMIT && -SLOPE_LIMIT <= leg_f <= SLOPE_LIMIT
        }),
{
    vstd::arithmetic::div_mod::lemma_fundamental_div_mod(p + FP_ONE - 1, FP_ONE as int);
    vstd::arithmetic::div_mod::lemma_mod_bound(p + FP_ONE - 1, FP_ONE as int);
    vstd::arithmetic::div_mod::lemma_fundamental_div_mod(p, FP_ONE as int);
    vstd::arithmetic::div_mod::lemma_mod_bound(p, FP_ONE as int);
    let sl = spec_clamp_abs(slope_raw, SLOPE_LIMIT as int);
    let fc = spec_fp_ceil(p) - p;
    let ff = spec_fp_floor(p) - p;
    assert(-(0x1_0000_0000_0000 as int) <= -fc * sl <= 0x1_0000_0000_0000 && -(
    0x1_0000_0000_0000 as int) <= -ff * sl <= 0x1_0000_0000_0000) by (nonlinear_arith)
        requires
            0 <= fc < 65536,
            -65536 < ff <= 0,
            -0x1_0000_0000 <= sl <= 0x1_0000_0000,
    ;
    lemma_div_bounds(-fc * sl, SLOPE_LIMIT as int, FP_ONE as int);
    lemma_div_bounds(-ff * sl, SLOPE_LIMIT as int, FP_ONE as int);
}

/// Ray casting is rotation-consistent: a whole extra revolution on the ray
/// angle leaves the winning intersection's distance, terrain and
/// orientation unchanged (the stored angle offset shifts by the
/// revolution, as the raw difference of the two angles).
pub proof fn lemma_raycast_rotation_consistent(
    grid: Seq<u8>,
    px: int,
    py: int,
    pangle: int,
    angle: int,
    tan_raw: int,
    inv_tan_raw: int,
)
    ensures
        spec_raycast(grid, px, py, pangle, angle + FULL_TURN, tan_raw, inv_tan_raw).distance
            == spec_raycast(grid, px, py, pangle, angle, tan_raw, inv_tan_raw).distance,
        spec_raycast(grid, px, py, pangle, angle + FULL_TURN, tan_raw, inv_tan_raw).terrain
            == spec_raycast(grid, px, py, pangle, angle, tan_raw, inv_tan_raw).terrain,
        spec_raycast(grid, px, py, pangle, angle + FULL_TURN, tan_raw, inv_tan_raw).orientation
            == spec_raycast(grid, px, py, pangle, angle, tan_raw, inv_tan_raw).orientation,
{
    lemma_wrap_periodic(angle);
    lemma_wrap_periodic(angle - QUARTER_TURN);
    assert(angle + FULL_TURN - QUARTER_TURN == (angle - QUARTER_TURN) + FULL_TURN);
    assert(spec_points_up(angle + FULL_TURN) == spec_points_up(angle));
    assert(spec_points_right(angle + FULL_TURN) == spec_points_right(angle));
    let h1 = spec_horizontal_intersection(grid, px, py, pangle, angle + FULL_TURN, inv_tan_raw);
    let h2 = spec_horizontal_intersection(grid, px, py, pangle, angle, inv_tan_raw);
    let v1 = spec_vertical_intersection(grid, px, py, pangle, angle + FULL_TURN, tan_raw);
    let v2 = spec_vertical_intersection(grid, px, py, pangle, angle, tan_raw);
    assert(h1.distance == h2.distance && h1.terrain == h2.terrain && h1.orientation
        == h2.orientation);
    assert(v1.distance == v2.distance && v1.terrain == v2.terrain && v1.orientation
        == v2.orientation);
}

} // verus!
