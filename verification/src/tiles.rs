//! Tile and occupant vocabulary: the closed enumerations of tile models,
//! terrain behaviours and occupant kinds, and the catalogue that assigns a
//! behaviour to each tile model.

use vstd::prelude::*;

verus! {

/// Identifier of a tile model in the tile palette.
#[derive(Clone, Copy, PartialEq, Eq, Structural, Debug)]
pub enum EnumTilesId {
    TileIdFloor,
    TileIdFire,
    TileIdWater,
    TileIdExit,
    TileIdArmoire,
    TileIdTable1,
    TileIdTable2,
    TileIdWallCorner,
    TileIdWall,
    TileIdDesk,
}

/// Terrain behaviour of a tile cell. `Empty` is the absence state: the cell
/// holds no tile at all.
#[derive(Clone, Copy, PartialEq, Eq, Structural, Debug)]
pub enum EnumeTileBehaviour {
    TileBFloor,
    TileBFire,
    TileBWater,
    TileBExit,
    TileBObstacle,
    Empty,
}

/// Occupancy state of an occupant cell.
#[derive(Clone, Copy, PartialEq, Eq, Structural, Debug)]
pub enum EnumHedgehogOnGrid {
    Empty,
    HedgehogAlive,
}

/// Kind of a placeable occupant.
#[derive(Clone, Copy, PartialEq, Eq, Structural, Debug)]
pub enum HedgehogType {
    HedegehogeTypeStandard,
}

/// The behaviour the tile palette assigns to each tile model: the four
/// dedicated terrains map to themselves, every furniture or wall model is an
/// obstacle. No model carries the `Empty` behaviour.
pub open spec fn spec_tile_behaviour_of(id: EnumTilesId) -> EnumeTileBehaviour {
    match id {
        EnumTilesId::TileIdFloor => EnumeTileBehaviour::TileBFloor,
        EnumTilesId::TileIdFire => EnumeTileBehaviour::TileBFire,
        EnumTilesId::TileIdWater => EnumeTileBehaviour::TileBWater,
        EnumTilesId::TileIdExit => EnumeTileBehaviour::TileBExit,
        EnumTilesId::TileIdArmoire => EnumeTileBehaviour::TileBObstacle,
        EnumTilesId::TileIdTable1 => EnumeTileBehaviour::TileBObstacle,
        EnumTilesId::TileIdTable2 => EnumeTileBehaviour::TileBObstacle,
        EnumTilesId::TileIdWallCorner => EnumeTileBehaviour::TileBObstacle,
        EnumTilesId::TileIdWall => EnumeTileBehaviour::TileBObstacle,
        EnumTilesId::TileIdDesk => EnumeTileBehaviour::TileBObstacle,
    }
}

/// Looks a tile model up in the tile palette catalogue.
pub fn tile_behaviour_of(id: EnumTilesId) -> (b: EnumeTileBehaviour)
    ensures
        b == spec_tile_behaviour_of(id),
        !(b is Empty),
{
    match id {
        EnumTilesId::TileIdFloor => EnumeTileBehaviour::TileBFloor,
        EnumTilesId::TileIdFire => EnumeTileBehaviour::TileBFire,
        EnumTilesId::TileIdWater => EnumeTileBehaviour::TileBWater,
        EnumTilesId::TileIdExit => EnumeTileBehaviour::TileBExit,
        EnumTilesId::TileIdArmoire => EnumeTileBehaviour::TileBObstacle,
        EnumTilesId::TileIdTable1 => EnumeTileBehaviour::TileBObstacle,
        EnumTilesId::TileIdTable2 => EnumeTileBehaviour::TileBObstacle,
        EnumTilesId::TileIdWallCorner => EnumeTileBehaviour::TileBObstacle,
        EnumTilesId::TileIdWall => EnumeTileBehaviour::TileBObstacle,
        EnumTilesId::TileIdDesk => EnumeTileBehaviour::TileBObstacle,
    }
}

} // verus!
