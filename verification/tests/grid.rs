use raymaze::fixed::floor_div;
use raymaze::fixed::fp_ceil;
use raymaze::fixed::fp_distance;
use raymaze::fixed::fp_floor;
use raymaze::fixed::isqrt;
use raymaze::fixed::tile_of;
use raymaze::angle::wrap_angle;
use raymaze::map::maze;
use raymaze::map::read_map;
use raymaze::map::Terrain;
use raymaze::map::TileMap;
use raymaze::render::extract_colors;
use raymaze::render::wall_top;

const FP: i64 = 65536;

#[test]
fn floor_division_rounds_toward_negative_infinity() {
    assert_eq!(floor_div(7, 2), 3);
    assert_eq!(floor_div(-7, 2), -4);
    assert_eq!(floor_div(-1, FP), -1);
    assert_eq!(floor_div(-FP, FP), -1);
    assert_eq!(floor_div(FP - 1, FP), 0);
    assert_eq!(floor_div(0, 3), 0);
}

#[test]
fn tile_indices_floor_fixed_point_coordinates() {
    assert_eq!(tile_of(3 * FP / 2), 1);
    assert_eq!(tile_of(-1), -1);
    assert_eq!(tile_of(0), 0);
    assert_eq!(fp_floor(3 * FP / 2), FP);
    assert_eq!(fp_ceil(3 * FP / 2), 2 * FP);
    assert_eq!(fp_ceil(2 * FP), 2 * FP);
}

#[test]
fn wrap_angle_reduces_into_one_turn() {
    assert_eq!(wrap_angle(0), 0);
    assert_eq!(wrap_angle(-262144), 786432);
    assert_eq!(wrap_angle(1048576 + 5), 5);
    assert_eq!(wrap_angle(-1), 1048575);
}

#[test]
fn integer_square_root_is_exact_on_squares() {
    assert_eq!(isqrt(0), 0);
    assert_eq!(isqrt(1), 1);
    assert_eq!(isqrt(2), 1);
    assert_eq!(isqrt(4), 2);
    assert_eq!(isqrt(360448u128 * 360448u128), 360448);
    assert_eq!(isqrt(360448u128 * 360448u128 + 1), 360448);
}

#[test]
fn distance_matches_the_three_four_five_triangle() {
    assert_eq!(fp_distance(3 * FP, 4 * FP), 5 * FP);
    assert_eq!(fp_distance(-3 * FP, 4 * FP), 5 * FP);
    assert_eq!(fp_distance(0, 0), 0);
    assert!(fp_distance(1, -1) >= 0);
}

#[test]
fn maze_lookup_reads_known_cells() {
    let m = maze();
    // The starting tile (1, 1) is open floor.
    assert_eq!(read_map(&m, 3 * FP / 2, 3 * FP / 2), Terrain::Open);
    // The border is wall.
    assert_eq!(read_map(&m, FP / 2, FP / 2), Terrain::Wall);
    // The exit door sits at tile (20, 6).
    assert_eq!(read_map(&m, 20 * FP + FP / 2, 6 * FP + FP / 2), Terrain::Doorway);
}

#[test]
fn lookup_is_fail_closed_outside_the_grid() {
    let m = maze();
    assert_eq!(read_map(&m, -FP, -FP), Terrain::Wall);
    assert_eq!(read_map(&m, FP / 2, 100 * FP), Terrain::Wall);
    assert_eq!(read_map(&m, i64::MIN, i64::MAX), Terrain::Wall);
    assert_eq!(read_map(&m, i64::MAX, i64::MAX), Terrain::Wall);
}

#[test]
fn lookup_is_fail_closed_on_unknown_codes() {
    let mut cells = vec![0u8; 168];
    cells[0] = 7;
    cells[1] = 4;
    cells[2] = 2;
    let m = TileMap::new(cells);
    // Code 7 has no meaning: it reads as wall.
    assert_eq!(read_map(&m, FP / 2, FP / 2), Terrain::Wall);
    assert_eq!(read_map(&m, FP + FP / 2, FP / 2), Terrain::Mirage);
    assert_eq!(read_map(&m, 2 * FP + FP / 2, FP / 2), Terrain::Doorway);
}

#[test]
fn lookup_offset_is_row_major_over_the_whole_grid() {
    let m = maze();
    // An x one full row past the width lands on the next row's cell: the
    // offset, not each coordinate, decides what is out of range.
    assert_eq!(read_map(&m, 22 * FP + FP / 2, FP / 2), Terrain::Open);
    assert_eq!(read_map(&m, 21 * FP + FP / 2, FP / 2), Terrain::Wall);
}

#[test]
fn extract_colors_doubles_each_digit() {
    assert_eq!(extract_colors(0x65), (0x66, 0x55));
    assert_eq!(extract_colors(0x41), (0x44, 0x11));
    assert_eq!(extract_colors(0x00), (0x00, 0x00));
    assert_eq!(extract_colors(0xff), (0xff, 0xff));
}

#[test]
fn wall_top_centres_and_lifts_with_the_bob() {
    // A 100-pixel strip sits 50 above the screen centre.
    assert_eq!(wall_top(100, 0), 30);
    // One tile of jump height lifts it by half the strip height.
    assert_eq!(wall_top(100, FP), 80);
    assert_eq!(wall_top(0, 0), 80);
}

#[test]
fn the_level_format_round_trips_exactly() {
    let mut cells = vec![0u8; 168];
    cells[37] = 1;
    cells[81] = 2;
    cells[100] = 4;
    cells[167] = 9;
    let m = TileMap::new(cells.clone());
    assert_eq!(m.codes(), &cells);
}
