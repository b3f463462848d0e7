//! The tile grid and its fail-closed lookup.
//!
//! A [`TileMap`] is an immutable row-major grid of small terrain codes,
//! `MAP_WIDTH` columns by `MAP_HEIGHT` rows. [`read_map`] floors a pair of
//! fixed-point coordinates to a tile, computes the row-major offset, and
//! looks the code up; an offset outside the grid, or a code with no assigned
//! meaning, deliberately reads as [`Terrain::Wall`], so neither ray casting
//! nor collision resolution ever has to special-case the edge of the world.

use vstd::prelude::*;

verus! {

use crate::fixed::spec_tile;
use crate::fixed::tile_of;

/// Number of tile columns in a map.
pub const MAP_WIDTH: i64 = 21;

/// Number of tile rows in a map.
pub const MAP_HEIGHT: i64 = 8;

/// Number of codes in a map's row-major grid.
pub const GRID_LEN: usize = 168;

/// What occupies a tile.
#[derive(Clone, Copy, Debug, PartialEq, Eq, Structural)]
pub enum Terrain {
    /// Walkable floor.
    Open,
    /// Solid, impassable, rendered as a wall.
    Wall,
    /// The exit door: blocks movement and triggers victory.
    Doorway,
    /// Illusory terrain: walkable, but fools the player.
    Mirage,
}

/// Which grid-line family a ray intersection came from; used by the
/// renderer only to pick a shade.
#[derive(Clone, Copy, Debug, PartialEq, Eq, Structural)]
pub enum Orientation {
    /// The ray stopped on a horizontal grid line.
    Horizontal,
    /// The ray stopped on a vertical grid line.
    Vertical,
}

/// The terrain assigned to a stored map code; unknown codes read as walls.
pub open spec fn spec_code_terrain(code: u8) -> Terrain {
    if code == 0 {
        Terrain::Open
    } else if code == 1 {
        Terrain::Wall
    } else if code == 2 {
        Terrain::Doorway
    } else if code == 4 {
        Terrain::Mirage
    } else {
        Terrain::Wall
    }
}

/// An immutable row-major grid of terrain codes.
pub struct TileMap {
    cells: Vec<u8>,
}

impl View for TileMap {
    type V = Seq<u8>;

    closed spec fn view(&self) -> Seq<u8> {
        self.cells@
    }
}

impl TileMap {
    /// A map is well formed when it holds exactly one code per tile.
    pub open spec fn wf(&self) -> bool {
        self@.len() == GRID_LEN
    }

    /// Wraps a row-major grid of codes as a map.
    pub fn new(cells: Vec<u8>) -> (m: TileMap)
        requires
            cells@.len() == GRID_LEN,
        ensures
            m@ == cells@,
            m.wf(),
    {
        TileMap { cells }
    }

    /// The stored codes, exactly as the map was built from: together with
    /// [`TileMap::new`], the persisted level format round-trips unchanged.
    pub fn codes(&self) -> (c: &Vec<u8>)
        ensures
            c@ == self@,
    {
        &self.cells
    }
}

/// The terrain under the fixed-point point `(x, y)` of a grid: both
/// coordinates are floored to tile indices, the row-major offset is formed,
/// and any offset outside the grid reads as a wall.
pub open spec fn spec_terrain_at(grid: Seq<u8>, x: int, y: int) -> Terrain {
    let off = spec_tile(y) * (MAP_WIDTH as int) + spec_tile(x);
    if 0 <= off < grid.len() {
        spec_code_terrain(grid[off])
    } else {
        Terrain::Wall
    }
}

/// The lookup is fail-closed: an offset outside the grid, and equally a
/// stored code with no assigned meaning, reads as a wall.
pub proof fn lemma_read_map_fail_closed(grid: Seq<u8>, x: int, y: int)
    ensures
        ({
            let off = spec_tile(y) * (MAP_WIDTH as int) + spec_tile(x);
            (off < 0 || off >= grid.len() || (grid[off] != 0 && grid[off] != 1 && grid[off] != 2
                && grid[off] != 4)) ==> spec_terrain_at(grid, x, y) is Wall
        }),
{
}

/// Looks up what the map holds at a fixed-point point. Total: every
/// coordinate pair yields a terrain, with [`Terrain::Wall`] standing in for
/// anything outside the grid or without an assigned meaning.
pub fn read_map(map: &TileMap, x: i64, y: i64) -> (t: Terrain)
    requires
        map.wf(),
    ensures
        t == spec_terrain_at(map@, x as int, y as int),
{
    let cx = tile_of(x);
    let cy = tile_of(y);
    let off = cy * MAP_WIDTH + cx;
    if 0 <= off && off < GRID_LEN as i64 {
        let code = map.cells[off as usize];
        match code {
            0u8 => Terrain::Open,
            1u8 => Terrain::Wall,
            2u8 => Terrain::Doorway,
            4u8 => Terrain::Mirage,
            _ => Terrain::Wall,
        }
    } else {
        Terrain::Wall
    }
}


/// The built-in maze level, row major: a border of walls, a winding set of
/// corridors, and the exit doorway at the east end of the seventh row.
pub open spec fn spec_maze_grid() -> Seq<u8> {
    seq![
        1u8, 1u8, 1u8, 1u8, 1u8, 1u8, 1u8, 1u8, 1u8, 1u8, 1u8, 1u8, 1u8, 1u8, 1u8, 1u8, 1u8, 1u8, 1u8, 1u8, 1u8,
        1u8, 0u8, 0u8, 0u8, 0u8, 0u8, 1u8, 0u8, 1u8, 0u8, 0u8, 0u8, 0u8, 1u8, 0u8, 0u8, 0u8, 0u8, 0u8, 0u8, 1u8,
        1u8, 0u8, 1u8, 1u8, 1u8, 0u8, 0u8, 0u8, 0u8, 0u8, 1u8, 1u8, 0u8, 1u8, 0u8, 1u8, 1u8, 1u8, 1u8, 1u8, 1u8,
        1u8, 0u8, 0u8, 0u8, 1u8, 1u8, 1u8, 0u8, 1u8, 0u8, 0u8, 1u8, 0u8, 0u8, 0u8, 1u8, 0u8, 0u8, 0u8, 1u8, 1u8,
        1u8, 0u8, 1u8, 0u8, 0u8, 0u8, 1u8, 0u8, 1u8, 1u8, 1u8, 1u8, 0u8, 1u8, 1u8, 1u8, 0u8, 1u8, 0u8, 1u8, 1u8,
        1u8, 0u8, 1u8, 1u8, 1u8, 0u8, 1u8, 0u8, 0u8, 1u8, 1u8, 0u8, 0u8, 0u8, 0u8, 0u8, 0u8, 1u8, 0u8, 1u8, 1u8,
        1u8, 0u8, 0u8, 0u8, 1u8, 0u8, 0u8, 0u8, 0u8, 0u8, 0u8, 0u8, 1u8, 1u8, 0u8, 1u8, 1u8, 1u8, 0u8, 0u8, 2u8,
        1u8, 1u8, 1u8, 1u8, 1u8, 1u8, 1u8, 1u8, 1u8, 1u8, 1u8, 1u8, 1u8, 1u8, 1u8, 1u8, 1u8, 1u8, 1u8, 1u8, 1u8,
    ]
}

/// Builds the built-in maze level.
pub fn maze() -> (m: TileMap)
    ensures
        m.wf(),
        m@ == spec_maze_grid(),
{
    let cells: Vec<u8> = vec![
        1u8, 1u8, 1u8, 1u8, 1u8, 1u8, 1u8, 1u8, 1u8, 1u8, 1u8, 1u8, 1u8, 1u8, 1u8, 1u8, 1u8, 1u8, 1u8, 1u8, 1u8,
        1u8, 0u8, 0u8, 0u8, 0u8, 0u8, 1u8, 0u8, 1u8, 0u8, 0u8, 0u8, 0u8, 1u8, 0u8, 0u8, 0u8, 0u8, 0u8, 0u8, 1u8,
        1u8, 0u8, 1u8, 1u8, 1u8, 0u8, 0u8, 0u8, 0u8, 0u8, 1u8, 1u8, 0u8, 1u8, 0u8, 1u8, 1u8, 1u8, 1u8, 1u8, 1u8,
        1u8, 0u8, 0u8, 0u8, 1u8, 1u8, 1u8, 0u8, 1u8, 0u8, 0u8, 1u8, 0u8, 0u8, 0u8, 1u8, 0u8, 0u8, 0u8, 1u8, 1u8,
        1u8, 0u8, 1u8, 0u8, 0u8, 0u8, 1u8, 0u8, 1u8, 1u8, 1u8, 1u8, 0u8, 1u8, 1u8, 1u8, 0u8, 1u8, 0u8, 1u8, 1u8,
        1u8, 0u8, 1u8, 1u8, 1u8, 0u8, 1u8, 0u8, 0u8, 1u8, 1u8, 0u8, 0u8, 0u8, 0u8, 0u8, 0u8, 1u8, 0u8, 1u8, 1u8,
        1u8, 0u8, 0u8, 0u8, 1u8, 0u8, 0u8, 0u8, 0u8, 0u8, 0u8, 0u8, 1u8, 1u8, 0u8, 1u8, 1u8, 1u8, 0u8, 0u8, 2u8,
        1u8, 1u8, 1u8, 1u8, 1u8, 1u8, 1u8, 1u8, 1u8, 1u8, 1u8, 1u8, 1u8, 1u8, 1u8, 1u8, 1u8, 1u8, 1u8, 1u8, 1u8,
    ];
    proof {
        assert(cells@ =~= spec_maze_grid());
    }
    TileMap::new(cells)
}

} // verus!
