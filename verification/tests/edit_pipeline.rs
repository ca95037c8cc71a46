use hedgegrid::edit::{
    apply_edit_pass, can_place_hedgehog, process_edit_request, validate_level_edition,
    EditRequest, EventLevelEdidted, ValidationPayload, ValidationRequested,
};
use hedgegrid::grid::{GridPosition, LevelGrid, VisualHandle};
use hedgegrid::tiles::{EnumHedgehogOnGrid, EnumTilesId, EnumeTileBehaviour, HedgehogType};

fn handle(n: u32) -> VisualHandle {
    VisualHandle { index: n, generation: 1 }
}

fn create_tile(x: usize, z: usize, behaviour: EnumeTileBehaviour, visual: u32) -> EditRequest {
    EditRequest::CreateTile {
        grid_position: GridPosition { x, z },
        tile_id: match behaviour {
            EnumeTileBehaviour::TileBFloor => EnumTilesId::TileIdFloor,
            EnumeTileBehaviour::TileBFire => EnumTilesId::TileIdFire,
            EnumeTileBehaviour::TileBWater => EnumTilesId::TileIdWater,
            EnumeTileBehaviour::TileBExit => EnumTilesId::TileIdExit,
            _ => EnumTilesId::TileIdWall,
        },
        behaviour,
        visual: handle(visual),
    }
}

fn create_occupant(x: usize, z: usize, visual: u32) -> EditRequest {
    EditRequest::CreateOccupant {
        grid_position: GridPosition { x, z },
        occupant_kind: HedgehogType::HedegehogeTypeStandard,
        visual: handle(visual),
    }
}

#[test]
fn processing_enqueues_one_validation_per_request_in_order() {
    let mut grid = LevelGrid::new();
    let mut queue: Vec<ValidationRequested> = Vec::new();
    let mut disposals: Vec<VisualHandle> = Vec::new();
    process_edit_request(&mut grid, &create_tile(1, 1, EnumeTileBehaviour::TileBFloor, 1),
        &mut queue, &mut disposals)
        .unwrap();
    process_edit_request(&mut grid, &create_occupant(1, 1, 2), &mut queue, &mut disposals)
        .unwrap();
    process_edit_request(&mut grid,
        &EditRequest::RemoveTile { grid_position: GridPosition { x: 1, z: 1 } }, &mut queue,
        &mut disposals)
        .unwrap();
    assert_eq!(queue.len(), 3);
    assert_eq!(queue[0].validation_payload, ValidationPayload::AddedTile);
    assert_eq!(queue[1].validation_payload, ValidationPayload::AddedOccupant);
    assert_eq!(queue[2].validation_payload, ValidationPayload::RemovedTile);
    assert_eq!(queue[0].grid_position, GridPosition { x: 1, z: 1 });
}

#[test]
fn overwriting_a_tile_disposes_the_previous_visual() {
    let mut grid = LevelGrid::new();
    let mut queue: Vec<ValidationRequested> = Vec::new();
    let mut disposals: Vec<VisualHandle> = Vec::new();
    process_edit_request(&mut grid, &create_tile(2, 2, EnumeTileBehaviour::TileBFloor, 7),
        &mut queue, &mut disposals)
        .unwrap();
    assert!(disposals.is_empty());
    process_edit_request(&mut grid, &create_tile(2, 2, EnumeTileBehaviour::TileBWater, 8),
        &mut queue, &mut disposals)
        .unwrap();
    assert_eq!(disposals, vec![handle(7)]);
}

#[test]
fn validation_drains_the_queue_and_notifies_once() {
    let mut grid = LevelGrid::new();
    let mut queue: Vec<ValidationRequested> = Vec::new();
    let mut disposals: Vec<VisualHandle> = Vec::new();
    process_edit_request(&mut grid, &create_tile(5, 5, EnumeTileBehaviour::TileBFloor, 1),
        &mut queue, &mut disposals)
        .unwrap();
    let note = validate_level_edition(&mut grid, &mut queue, &mut disposals);
    assert_eq!(note, EventLevelEdidted);
    assert!(queue.is_empty());
}

#[test]
fn cascade_removes_occupant_when_floor_is_removed() {
    let mut grid = LevelGrid::new();
    let mut disposals: Vec<VisualHandle> = Vec::new();
    apply_edit_pass(&mut grid, &vec![
        create_tile(3, 3, EnumeTileBehaviour::TileBFloor, 1),
        create_occupant(3, 3, 2),
    ], &mut disposals);
    let pos = GridPosition { x: 3, z: 3 };
    assert!(matches!(
        grid.hedgehog_at(pos).unwrap().hedgehog_behaviour,
        EnumHedgehogOnGrid::HedgehogAlive
    ));
    apply_edit_pass(&mut grid, &vec![EditRequest::RemoveTile { grid_position: pos }],
        &mut disposals);
    assert!(matches!(
        grid.hedgehog_at(pos).unwrap().hedgehog_behaviour,
        EnumHedgehogOnGrid::Empty
    ));
    assert_eq!(grid.tile_at(pos).unwrap().tile_behaviour, EnumeTileBehaviour::Empty);
    assert!(disposals.contains(&handle(2)));
}

#[test]
fn remove_tile_twice_equals_remove_tile_once() {
    let mut once = LevelGrid::new();
    let mut twice = LevelGrid::new();
    let mut disposals: Vec<VisualHandle> = Vec::new();
    let setup = vec![
        create_tile(6, 2, EnumeTileBehaviour::TileBFloor, 1),
        create_occupant(6, 2, 2),
    ];
    apply_edit_pass(&mut once, &setup, &mut disposals);
    apply_edit_pass(&mut twice, &setup, &mut disposals);
    assert!(once.grid_eq(&twice));
    let removal = vec![EditRequest::RemoveTile { grid_position: GridPosition { x: 6, z: 2 } }];
    apply_edit_pass(&mut once, &removal, &mut disposals);
    apply_edit_pass(&mut twice, &removal, &mut disposals);
    apply_edit_pass(&mut twice, &removal, &mut disposals);
    assert!(once.grid_eq(&twice));
}

#[test]
fn obstacle_over_occupied_floor_cascades() {
    let mut grid = LevelGrid::new();
    let mut disposals: Vec<VisualHandle> = Vec::new();
    apply_edit_pass(&mut grid, &vec![
        create_tile(4, 1, EnumeTileBehaviour::TileBFloor, 1),
        create_occupant(4, 1, 2),
    ], &mut disposals);
    apply_edit_pass(&mut grid, &vec![
        create_tile(4, 1, EnumeTileBehaviour::TileBObstacle, 3),
    ], &mut disposals);
    let pos = GridPosition { x: 4, z: 1 };
    assert!(matches!(
        grid.hedgehog_at(pos).unwrap().hedgehog_behaviour,
        EnumHedgehogOnGrid::Empty
    ));
    assert_eq!(grid.tile_at(pos).unwrap().tile_behaviour, EnumeTileBehaviour::TileBObstacle);
}

#[test]
fn floor_repave_keeps_the_occupant() {
    let mut grid = LevelGrid::new();
    let mut disposals: Vec<VisualHandle> = Vec::new();
    apply_edit_pass(&mut grid, &vec![
        create_tile(4, 2, EnumeTileBehaviour::TileBFloor, 1),
        create_occupant(4, 2, 2),
    ], &mut disposals);
    apply_edit_pass(&mut grid, &vec![
        create_tile(4, 2, EnumeTileBehaviour::TileBFloor, 3),
    ], &mut disposals);
    let pos = GridPosition { x: 4, z: 2 };
    let hedgehog = grid.hedgehog_at(pos).unwrap();
    assert!(matches!(hedgehog.hedgehog_behaviour, EnumHedgehogOnGrid::HedgehogAlive));
    assert_eq!(hedgehog.hedgehog_entity, Some(handle(2)));
    assert_eq!(grid.tile_at(pos).unwrap().tile_entity, Some(handle(3)));
}

#[test]
fn editor_scenario_paint_then_pave_over() {
    let mut grid = LevelGrid::new();
    let mut disposals: Vec<VisualHandle> = Vec::new();
    let pos = GridPosition { x: 2, z: 3 };
    apply_edit_pass(&mut grid, &vec![
        create_tile(2, 3, EnumeTileBehaviour::TileBFloor, 1),
    ], &mut disposals);
    assert!(can_place_hedgehog(&grid, pos));
    apply_edit_pass(&mut grid, &vec![create_occupant(2, 3, 2)], &mut disposals);
    assert!(matches!(
        grid.hedgehog_at(pos).unwrap().hedgehog_behaviour,
        EnumHedgehogOnGrid::HedgehogAlive
    ));
    apply_edit_pass(&mut grid, &vec![
        create_tile(2, 3, EnumeTileBehaviour::TileBObstacle, 3),
    ], &mut disposals);
    assert!(matches!(
        grid.hedgehog_at(pos).unwrap().hedgehog_behaviour,
        EnumHedgehogOnGrid::Empty
    ));
    assert_eq!(grid.tile_at(pos).unwrap().tile_behaviour, EnumeTileBehaviour::TileBObstacle);
}

#[test]
fn occupant_placement_needs_floor_and_room() {
    let mut grid = LevelGrid::new();
    let mut disposals: Vec<VisualHandle> = Vec::new();
    let pos = GridPosition { x: 8, z: 8 };
    assert!(!can_place_hedgehog(&grid, pos));
    apply_edit_pass(&mut grid, &vec![
        create_tile(8, 8, EnumeTileBehaviour::TileBFire, 1),
    ], &mut disposals);
    assert!(!can_place_hedgehog(&grid, pos));
    apply_edit_pass(&mut grid, &vec![
        create_tile(8, 8, EnumeTileBehaviour::TileBFloor, 2),
    ], &mut disposals);
    assert!(can_place_hedgehog(&grid, pos));
    apply_edit_pass(&mut grid, &vec![create_occupant(8, 8, 3)], &mut disposals);
    assert!(!can_place_hedgehog(&grid, pos));
    assert!(!can_place_hedgehog(&grid, GridPosition { x: 10, z: 0 }));
}
