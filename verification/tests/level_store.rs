use hedgegrid::edit::{apply_edit_pass, EditRequest};
use hedgegrid::grid::{GridPosition, LevelGrid, VisualHandle};
use hedgegrid::level::{
    create_new_level, dump_current_level_ressource_to_components, generate_level_description,
    run_level, Level, ResCurrentLevel,
};
use hedgegrid::tiles::{EnumTilesId, EnumeTileBehaviour, HedgehogType};

fn handle(n: u32) -> VisualHandle {
    VisualHandle { index: n, generation: 1 }
}

#[test]
fn new_level_has_a_version_4_uid_and_an_empty_grid() {
    let mut levels: Vec<Level> = Vec::new();
    let uid = create_new_level(&mut levels);
    assert_eq!((uid >> 76) & 0xf, 4);
    assert_eq!((uid >> 62) & 0x3, 2);
    assert_eq!(levels.len(), 1);
    assert_eq!(levels[0].uid.uid, Some(uid));
    assert!(levels[0].grid.grid_eq(&LevelGrid::new()));
}

#[test]
fn fresh_uids_differ() {
    let mut levels: Vec<Level> = Vec::new();
    let first = create_new_level(&mut levels);
    let second = create_new_level(&mut levels);
    assert_ne!(first, second);
}

#[test]
fn run_level_copies_the_persisted_grid() {
    let mut levels: Vec<Level> = Vec::new();
    let uid = create_new_level(&mut levels);
    let other = create_new_level(&mut levels);
    let mut current = ResCurrentLevel { level_uid: None, level_entity: None };
    let mut working = LevelGrid::new();
    run_level(uid, &mut current, &mut working, &levels);
    assert_eq!(current.level_uid, Some(uid));
    assert_eq!(current.level_entity, Some(0));
    assert!(working.grid_eq(&levels[0].grid));
    run_level(other, &mut current, &mut working, &levels);
    assert_eq!(current.level_entity, Some(1));
}

#[test]
fn run_level_with_unknown_uid_changes_nothing() {
    let mut levels: Vec<Level> = Vec::new();
    let uid = create_new_level(&mut levels);
    let mut current = ResCurrentLevel { level_uid: None, level_entity: None };
    let mut working = LevelGrid::new();
    run_level(uid ^ 1, &mut current, &mut working, &levels);
    assert_eq!(current.level_uid, None);
    assert_eq!(current.level_entity, None);
}

#[test]
fn dump_then_reload_round_trips_the_grid() {
    let mut levels: Vec<Level> = Vec::new();
    let uid = create_new_level(&mut levels);
    let mut current = ResCurrentLevel { level_uid: None, level_entity: None };
    let mut working = LevelGrid::new();
    run_level(uid, &mut current, &mut working, &levels);

    let mut disposals: Vec<VisualHandle> = Vec::new();
    apply_edit_pass(&mut working, &vec![
        EditRequest::CreateTile {
            grid_position: GridPosition { x: 2, z: 3 },
            tile_id: EnumTilesId::TileIdFloor,
            behaviour: EnumeTileBehaviour::TileBFloor,
            visual: handle(1),
        },
        EditRequest::CreateOccupant {
            grid_position: GridPosition { x: 2, z: 3 },
            occupant_kind: HedgehogType::HedegehogeTypeStandard,
            visual: handle(2),
        },
    ], &mut disposals);
    let edited = working.snapshot();

    dump_current_level_ressource_to_components(&current, &working, &mut levels);
    let mut fresh_current = ResCurrentLevel { level_uid: None, level_entity: None };
    let mut fresh_working = LevelGrid::new();
    run_level(uid, &mut fresh_current, &mut fresh_working, &levels);
    assert!(fresh_working.grid_eq(&edited));
    assert_eq!(fresh_current.level_entity, Some(0));
}

#[test]
fn dump_without_a_current_level_changes_nothing() {
    let mut levels: Vec<Level> = Vec::new();
    create_new_level(&mut levels);
    let snapshot = levels[0].grid.snapshot();
    let current = ResCurrentLevel { level_uid: None, level_entity: None };
    let mut working = LevelGrid::new();
    working
        .set_tile(GridPosition { x: 0, z: 0 }, EnumTilesId::TileIdFire,
            EnumeTileBehaviour::TileBFire, handle(4))
        .unwrap();
    dump_current_level_ressource_to_components(&current, &working, &mut levels);
    assert!(levels[0].grid.grid_eq(&snapshot));
}

#[test]
fn description_keeps_tile_and_occupant_kinds() {
    let mut grid = LevelGrid::new();
    grid.set_tile(GridPosition { x: 1, z: 4 }, EnumTilesId::TileIdWater,
        EnumeTileBehaviour::TileBWater, handle(6))
        .unwrap();
    grid.set_occupant(GridPosition { x: 1, z: 4 }, HedgehogType::HedegehogeTypeStandard,
        handle(7))
        .unwrap();
    let description = generate_level_description(&grid, 77);
    assert_eq!(description.uuid, 77);
    assert_eq!(description.level_grid.len(), 100);
    let cell = description.level_grid[1 * 10 + 4];
    assert_eq!(cell.tile, Some(EnumTilesId::TileIdWater));
    assert_eq!(cell.hedgehog, Some(HedgehogType::HedegehogeTypeStandard));
    let empty_cell = description.level_grid[0];
    assert_eq!(empty_cell.tile, None);
    assert_eq!(empty_cell.hedgehog, None);
}
