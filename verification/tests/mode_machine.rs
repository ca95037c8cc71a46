use hedgegrid::edit::{EditRequest, ValidationRequested};
use hedgegrid::grid::{GridPosition, LevelGrid, VisualHandle};
use hedgegrid::mode::{
    request_allowed_in_mode, submit_edit_request, toggle_view, update_tile_creator_position,
    EditorHookAction, ModeController, ModeTileLocalBuffer, PreviewKind, StateEditorMode,
    StateEditorView,
};
use hedgegrid::tiles::{EnumHedgehogOnGrid, EnumTilesId, EnumeTileBehaviour, HedgehogType};

fn handle(n: u32) -> VisualHandle {
    VisualHandle { index: n, generation: 1 }
}

fn occupant_request(x: usize, z: usize) -> EditRequest {
    EditRequest::CreateOccupant {
        grid_position: GridPosition { x, z },
        occupant_kind: HedgehogType::HedegehogeTypeStandard,
        visual: handle(9),
    }
}

fn tile_request(x: usize, z: usize) -> EditRequest {
    EditRequest::CreateTile {
        grid_position: GridPosition { x, z },
        tile_id: EnumTilesId::TileIdFloor,
        behaviour: EnumeTileBehaviour::TileBFloor,
        visual: handle(8),
    }
}

#[test]
fn occupant_request_in_tile_mode_is_ignored() {
    let mut grid = LevelGrid::new();
    let mut queue: Vec<ValidationRequested> = Vec::new();
    let mut disposals: Vec<VisualHandle> = Vec::new();
    let accepted = submit_edit_request(StateEditorMode::Tile, &mut grid, &occupant_request(1, 1),
        &mut queue, &mut disposals);
    assert!(!accepted);
    assert!(queue.is_empty());
    assert!(disposals.is_empty());
    assert!(grid.grid_eq(&LevelGrid::new()));
    assert!(matches!(
        grid.hedgehog_at(GridPosition { x: 1, z: 1 }).unwrap().hedgehog_behaviour,
        EnumHedgehogOnGrid::Empty
    ));
}

#[test]
fn tile_request_in_tile_mode_is_processed() {
    let mut grid = LevelGrid::new();
    let mut queue: Vec<ValidationRequested> = Vec::new();
    let mut disposals: Vec<VisualHandle> = Vec::new();
    let accepted = submit_edit_request(StateEditorMode::Tile, &mut grid, &tile_request(1, 1),
        &mut queue, &mut disposals);
    assert!(accepted);
    assert_eq!(queue.len(), 1);
    assert_eq!(
        grid.tile_at(GridPosition { x: 1, z: 1 }).unwrap().tile_behaviour,
        EnumeTileBehaviour::TileBFloor
    );
}

#[test]
fn mode_gate_by_request_kind() {
    assert!(request_allowed_in_mode(StateEditorMode::Tile, &tile_request(0, 0)));
    assert!(!request_allowed_in_mode(StateEditorMode::Tile, &occupant_request(0, 0)));
    assert!(request_allowed_in_mode(StateEditorMode::Hedgehog, &occupant_request(0, 0)));
    assert!(!request_allowed_in_mode(StateEditorMode::Hedgehog, &tile_request(0, 0)));
    assert!(!request_allowed_in_mode(StateEditorMode::Normal, &tile_request(0, 0)));
    assert!(!request_allowed_in_mode(StateEditorMode::Normal, &occupant_request(0, 0)));
    assert!(!request_allowed_in_mode(StateEditorMode::NoSet, &tile_request(0, 0)));
}

#[test]
fn entering_and_leaving_tile_mode_runs_the_hooks() {
    let mut controller = ModeController::new();
    let mut buffer = ModeTileLocalBuffer::new();
    assert!(matches!(controller.mode, StateEditorMode::NoSet));
    let enter = controller.set_mode(StateEditorMode::Tile, &mut buffer);
    assert_eq!(enter, vec![
        EditorHookAction::ShowPreview(PreviewKind::TilePreview),
        EditorHookAction::RefreshCursor,
    ]);
    buffer.hover_tile = Some(handle(40));
    let leave = controller.set_mode(StateEditorMode::Normal, &mut buffer);
    assert_eq!(leave, vec![
        EditorHookAction::HidePreview(PreviewKind::TilePreview),
        EditorHookAction::ShowLevelTile(handle(40)),
    ]);
    assert_eq!(buffer.hover_tile, None);
    assert!(matches!(controller.mode, StateEditorMode::Normal));
}

#[test]
fn hedgehog_mode_hooks() {
    let mut controller = ModeController::new();
    let mut buffer = ModeTileLocalBuffer::new();
    let enter = controller.set_mode(StateEditorMode::Hedgehog, &mut buffer);
    assert_eq!(enter, vec![
        EditorHookAction::ShowPreview(PreviewKind::OccupantPreview),
        EditorHookAction::RefreshCursor,
    ]);
    let leave = controller.set_mode(StateEditorMode::Normal, &mut buffer);
    assert_eq!(leave, vec![EditorHookAction::HidePreview(PreviewKind::OccupantPreview)]);
}

#[test]
fn hover_update_hides_new_tile_and_restores_previous() {
    let mut grid = LevelGrid::new();
    grid.set_tile(
        GridPosition { x: 2, z: 2 },
        EnumTilesId::TileIdFloor,
        EnumeTileBehaviour::TileBFloor,
        handle(50),
    )
    .unwrap();
    let mut buffer = ModeTileLocalBuffer::new();
    let first = update_tile_creator_position(&mut buffer, &grid, GridPosition { x: 2, z: 2 });
    assert_eq!(first, vec![EditorHookAction::HideLevelTile(handle(50))]);
    assert_eq!(buffer.hover_tile, Some(handle(50)));
    assert_eq!(buffer.hover_tile_grid_position, Some(GridPosition { x: 2, z: 2 }));
    let second = update_tile_creator_position(&mut buffer, &grid, GridPosition { x: 3, z: 3 });
    assert_eq!(second, vec![EditorHookAction::ShowLevelTile(handle(50))]);
    assert_eq!(buffer.hover_tile, None);
    assert_eq!(buffer.hover_tile_grid_position, Some(GridPosition { x: 3, z: 3 }));
}

#[test]
fn selected_tile_is_remembered() {
    let mut buffer = ModeTileLocalBuffer::new();
    assert_eq!(buffer.selected_idx, 0);
    buffer.set_selected_tile(4);
    assert_eq!(buffer.selected_idx, 4);
}

#[test]
fn view_toggles_between_level_and_selector() {
    let selector = toggle_view(StateEditorView::Level);
    assert!(matches!(selector, StateEditorView::TileSelector));
    let level = toggle_view(selector);
    assert!(matches!(level, StateEditorView::Level));
}
