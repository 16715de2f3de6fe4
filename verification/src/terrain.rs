//! Terrain generation.

use rand::Rng;
use vstd::prelude::*;
use crate::vec2::Vec2;

pub mod wave_function_collapse;

verus! {

/// The side of a tile, in raw units.
pub const TILE_SIZE: i64 = 200_000;

/// The number of tiles along each side of the terrain.
pub const GRID: usize = 7;

/// The number of tile colours.
pub const COLORS: usize = 4;

/// One tile of the terrain: where its centre lies and which colour it has.
#[derive(Clone, Copy, Debug, PartialEq, Eq, Structural)]
pub struct Tile {
    pub position: Vec2,
    pub color: usize,
}

/// The centre of the tile in column `i` and row `j`. The grid is centred
/// on the origin.
pub open spec fn tile_origin(i: int, j: int) -> Vec2 {
    Vec2 { x: (TILE_SIZE * (i - 3)) as i64, y: (TILE_SIZE * (j - 3)) as i64 }
}

/// Draws a whole number from `low` to `high`, both included: `Rng::gen_range`
/// of `rand` on the thread-local generator. `rand` documents that the value
/// lies in the range and that an empty range panics.
#[verifier::external_body]
fn random_between(low: usize, high: usize) -> (r: usize)
    requires
        low <= high,
    ensures
        low <= r <= high,
{
    rand::thread_rng().gen_range(low..=high)
}

/// Lays out the terrain: seven columns of seven tiles, column by column,
/// each tile with a colour drawn at random.
pub fn generate_terrain() -> (tiles: Vec<Tile>)
    ensures
        tiles@.len() == GRID * GRID,
        forall|k: int|
            0 <= k < tiles@.len() ==> (#[trigger] tiles@[k]).position == tile_origin(
                k / (GRID as int),
                k % (GRID as int),
            ) && tiles@[k].color < COLORS,
{
    let mut tiles: Vec<Tile> = Vec::new();
    let mut i: usize = 0;
    while i < GRID
        invariant
            i <= GRID,
            tiles@.len() == i * GRID,
            forall|k: int|
                0 <= k < tiles@.len() ==> (#[trigger] tiles@[k]).position == tile_origin(
                    k / (GRID as int),
                    k % (GRID as int),
                ) && tiles@[k].color < COLORS,
        decreases GRID - i,
    {
        let mut j: usize = 0;
        while j < GRID
            invariant
                i < GRID,
                j <= GRID,
                tiles@.len() == i * GRID + j,
                forall|k: int|
                    0 <= k < tiles@.len() ==> (#[trigger] tiles@[k]).position == tile_origin(
                        k / (GRID as int),
                        k % (GRID as int),
                    ) && tiles@[k].color < COLORS,
            decreases GRID - j,
        {
            let color: usize = random_between(0, COLORS - 1);
            let x: i64 = TILE_SIZE * (i as i64 - 3);
            let y: i64 = TILE_SIZE * (j as i64 - 3);
            tiles.push(Tile { position: Vec2::new(x, y), color });
            j += 1;
        }
        i += 1;
    }
    tiles
}

} // verus!
