use raymaze::angle::ANGLE_STEP;
use raymaze::angle::FULL_TURN;
use raymaze::angle::HALF_FOV;
use raymaze::map::maze;
use raymaze::map::Orientation;
use raymaze::map::Terrain;
use raymaze::ray::Ray;
use raymaze::ray::RaySlopes;
use raymaze::ray::FAR_DISTANCE;
use raymaze::ray::HEIGHT_CAP;
use raymaze::state::State;

const FP: i64 = 65536;

/// The slope data a host computes for a ray angle in angular units: the
/// fixed-point tangent and reciprocal tangent, saturated on overflow the
/// same way a float infinity saturates.
fn slopes_for(bam: i64) -> RaySlopes {
    let rad = (bam as f64) * std::f64::consts::TAU / 1048576.0;
    let t = rad.tan();
    RaySlopes { tan: (t * 65536.0) as i64, inv_tan: (65536.0 / t) as i64 }
}

#[test]
fn a_straight_downward_ray_hits_the_seventh_row() {
    // Player at (1.5, 1.5) facing straight down the corridor of column 1:
    // rows 2 through 6 are open, row 7 is the border wall, so the
    // horizontal search stops after 5.5 tiles, exactly.
    let m = maze();
    let s = State::new();
    let ray = s.raycast(&m, s.player_angle, slopes_for(s.player_angle));
    assert_eq!(ray.distance, 5 * FP + FP / 2);
    assert_eq!(ray.terrain, Terrain::Wall);
    assert!(matches!(ray.orientation, Orientation::Horizontal));
    assert_eq!(ray.angle_diff, 0);
}

#[test]
fn cardinal_angles_saturate_one_family_and_the_other_wins() {
    // Facing due east from the start: the horizontal family's reciprocal
    // tangent explodes, so the vertical family must supply the hit.
    let m = maze();
    let mut s = State::new();
    s.player_angle = 0;
    let ray = s.raycast(&m, 0, slopes_for(0));
    assert!(matches!(ray.orientation, Orientation::Vertical));
    // Column 1 is the starting corridor; the wall of column 6 stops an
    // eastward ray from (1.5, 1.5) after 4.5 tiles.
    assert_eq!(ray.distance, 4 * FP + FP / 2);
    assert_eq!(ray.terrain, Terrain::Wall);
}

#[test]
fn every_ray_resolves_with_a_nonnegative_distance() {
    let m = maze();
    let s = State::new();
    let mut bam: i64 = -FULL_TURN;
    while bam <= 2 * FULL_TURN {
        let ray = s.raycast(&m, bam, slopes_for(bam));
        assert!(ray.distance >= 0);
        assert_eq!(ray.terrain, Terrain::Wall);
        bam += 37211;
    }
}

#[test]
fn casting_a_full_turn_later_gives_the_same_wall() {
    let m = maze();
    let s = State::new();
    let mut bam: i64 = 1;
    while bam < FULL_TURN {
        let slopes = slopes_for(bam);
        let near = s.raycast(&m, bam, slopes);
        let far = s.raycast(&m, bam + FULL_TURN, slopes);
        assert_eq!(near.distance, far.distance);
        assert_eq!(near.terrain, far.terrain);
        assert_eq!(near.orientation, far.orientation);
        bam += 65521;
    }
}

#[test]
fn the_doorway_reads_as_a_distant_wall() {
    // Stand in the east corridor looking straight at the doorway tile
    // (20, 6): the stopping cell is not open and not a plain wall, so the
    // search substitutes the fixed far distance and a wall tag.
    let m = maze();
    let mut s = State::new();
    s.player_x = 18 * FP + FP / 2;
    s.player_y = 6 * FP + FP / 2;
    s.player_angle = 0;
    let ray = s.raycast(&m, 0, slopes_for(0));
    assert_eq!(ray.distance, FAR_DISTANCE);
    assert_eq!(ray.terrain, Terrain::Wall);
}

#[test]
fn one_ray_is_cast_per_screen_column() {
    let m = maze();
    let s = State::new();
    let mut slopes: Vec<RaySlopes> = Vec::new();
    for i in 0..160i64 {
        slopes.push(slopes_for(s.player_angle + HALF_FOV - i * ANGLE_STEP));
    }
    let rays = s.get_rays(&m, &slopes);
    assert_eq!(rays.len(), 160);
    for ray in &rays {
        assert!(ray.distance >= 0);
        // The structurally impossible case: no ray ever reports open
        // terrain.
        assert_ne!(ray.terrain, Terrain::Open);
    }
    // The centre column is the heading itself and must agree with a direct
    // cast.
    let centre = s.raycast(&m, s.player_angle, slopes[80]);
    assert_eq!(rays[80], centre);
    assert_eq!(rays[80].angle_diff, 0);
}

#[test]
fn wall_height_follows_the_fisheye_formula() {
    let ray = Ray {
        angle_diff: 0,
        distance: FP,
        terrain: Terrain::Wall,
        orientation: Orientation::Horizontal,
    };
    // One tile away, no angular offset: the full 100-pixel wall height.
    assert_eq!(ray.wall_height(FP), 100);
    let far = Ray { distance: 2 * FP, ..ray };
    assert_eq!(far.wall_height(FP), 50);
    // Halving the cosine doubles the height.
    assert_eq!(far.wall_height(FP / 2), 100);
    // A degenerate cosine caps out instead of dividing by zero.
    assert_eq!(ray.wall_height(0), HEIGHT_CAP);
    assert_eq!(ray.wall_height(-FP), HEIGHT_CAP);
}

#[test]
fn a_whole_frame_flows_from_input_to_wall_strips() {
    // One frame the way a host drives it: tick the state, cast all
    // columns, and project every strip.
    let m = maze();
    let mut s = State::new();
    let rad = (s.player_angle as f64) * std::f64::consts::TAU / 1048576.0;
    let (c, n) = ((rad.cos() * 65536.0) as i64, (rad.sin() * 65536.0) as i64);
    s.update(&m, true, false, false, false, false, c, n);
    let mut slopes: Vec<RaySlopes> = Vec::new();
    for i in 0..160i64 {
        slopes.push(slopes_for(s.player_angle + HALF_FOV - i * ANGLE_STEP));
    }
    let rays = s.get_rays(&m, &slopes);
    for (i, ray) in rays.iter().enumerate() {
        let diff_rad = (ray.angle_diff as f64) * std::f64::consts::TAU / 1048576.0;
        let h = ray.wall_height((diff_rad.cos() * 65536.0) as i64);
        assert!(h >= 0);
        assert!(h <= HEIGHT_CAP);
        // The fan runs left to right: the offset shrinks by one step per
        // column.
        assert_eq!(ray.angle_diff, HALF_FOV - (i as i64) * ANGLE_STEP);
    }
}
