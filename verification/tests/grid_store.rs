use hedgegrid::grid::{GridError, GridPosition, LevelGrid, VisualHandle};
use hedgegrid::tiles::{EnumHedgehogOnGrid, EnumTilesId, EnumeTileBehaviour, HedgehogType};

fn handle(n: u32) -> VisualHandle {
    VisualHandle { index: n, generation: 1 }
}

#[test]
fn new_grid_is_empty() {
    let grid = LevelGrid::new();
    for x in 0..10 {
        for z in 0..10 {
            let pos = GridPosition { x, z };
            let tile = grid.tile_at(pos).unwrap();
            assert_eq!(tile.tile_behaviour, EnumeTileBehaviour::Empty);
            assert_eq!(tile.tile_id, None);
            assert_eq!(tile.tile_entity, None);
            let hedgehog = grid.hedgehog_at(pos).unwrap();
            assert!(matches!(hedgehog.hedgehog_behaviour, EnumHedgehogOnGrid::Empty));
            assert_eq!(hedgehog.hedgehog_entity, None);
            assert_eq!(hedgehog.hedgehog_tile, None);
        }
    }
}

#[test]
fn set_tile_overwrites_and_returns_previous_visual() {
    let mut grid = LevelGrid::new();
    let pos = GridPosition { x: 3, z: 7 };
    let first = grid
        .set_tile(pos, EnumTilesId::TileIdFloor, EnumeTileBehaviour::TileBFloor, handle(11))
        .unwrap();
    assert_eq!(first, None);
    let second = grid
        .set_tile(pos, EnumTilesId::TileIdFire, EnumeTileBehaviour::TileBFire, handle(12))
        .unwrap();
    assert_eq!(second, Some(handle(11)));
    let tile = grid.tile_at(pos).unwrap();
    assert_eq!(tile.tile_id, Some(EnumTilesId::TileIdFire));
    assert_eq!(tile.tile_behaviour, EnumeTileBehaviour::TileBFire);
    assert_eq!(tile.tile_entity, Some(handle(12)));
}

#[test]
fn clear_tile_resets_cell() {
    let mut grid = LevelGrid::new();
    let pos = GridPosition { x: 0, z: 0 };
    grid.set_tile(pos, EnumTilesId::TileIdWater, EnumeTileBehaviour::TileBWater, handle(5))
        .unwrap();
    let previous = grid.clear_tile(pos).unwrap();
    assert_eq!(previous, Some(handle(5)));
    let tile = grid.tile_at(pos).unwrap();
    assert_eq!(tile.tile_behaviour, EnumeTileBehaviour::Empty);
    assert_eq!(tile.tile_id, None);
    assert_eq!(tile.tile_entity, None);
}

#[test]
fn clear_tile_on_empty_cell_is_a_no_op() {
    let mut grid = LevelGrid::new();
    let pos = GridPosition { x: 9, z: 9 };
    let previous = grid.clear_tile(pos).unwrap();
    assert_eq!(previous, None);
    let tile = grid.tile_at(pos).unwrap();
    assert_eq!(tile.tile_behaviour, EnumeTileBehaviour::Empty);
}

#[test]
fn occupant_cell_round_trip() {
    let mut grid = LevelGrid::new();
    let pos = GridPosition { x: 4, z: 4 };
    let previous = grid
        .set_occupant(pos, HedgehogType::HedegehogeTypeStandard, handle(21))
        .unwrap();
    assert_eq!(previous, None);
    let hedgehog = grid.hedgehog_at(pos).unwrap();
    assert!(matches!(hedgehog.hedgehog_behaviour, EnumHedgehogOnGrid::HedgehogAlive));
    assert_eq!(hedgehog.hedgehog_entity, Some(handle(21)));
    assert_eq!(hedgehog.hedgehog_tile, Some(HedgehogType::HedegehogeTypeStandard));
    let removed = grid.clear_occupant(pos).unwrap();
    assert_eq!(removed, Some(handle(21)));
    let cleared = grid.hedgehog_at(pos).unwrap();
    assert!(matches!(cleared.hedgehog_behaviour, EnumHedgehogOnGrid::Empty));
    assert_eq!(cleared.hedgehog_entity, None);
}

#[test]
fn out_of_bounds_is_signalled_and_harmless() {
    let mut grid = LevelGrid::new();
    let outside = GridPosition { x: 10, z: 0 };
    assert_eq!(
        grid.set_tile(outside, EnumTilesId::TileIdFloor, EnumeTileBehaviour::TileBFloor, handle(1)),
        Err(GridError::OutOfBounds)
    );
    assert_eq!(grid.clear_tile(outside), Err(GridError::OutOfBounds));
    assert_eq!(
        grid.set_occupant(outside, HedgehogType::HedegehogeTypeStandard, handle(2)),
        Err(GridError::OutOfBounds)
    );
    assert_eq!(grid.clear_occupant(outside), Err(GridError::OutOfBounds));
    assert_eq!(grid.tile_at(outside), Err(GridError::OutOfBounds));
    assert_eq!(grid.hedgehog_at(outside), Err(GridError::OutOfBounds));
    let also_outside = GridPosition { x: 2, z: 10 };
    assert_eq!(grid.clear_tile(also_outside), Err(GridError::OutOfBounds));
    assert!(grid.grid_eq(&LevelGrid::new()));
}

#[test]
fn snapshot_and_grid_eq() {
    let mut grid = LevelGrid::new();
    let pos = GridPosition { x: 1, z: 2 };
    grid.set_tile(pos, EnumTilesId::TileIdExit, EnumeTileBehaviour::TileBExit, handle(33))
        .unwrap();
    let copy = grid.snapshot();
    assert!(grid.grid_eq(&copy));
    grid.clear_tile(pos).unwrap();
    assert!(!grid.grid_eq(&copy));
}
