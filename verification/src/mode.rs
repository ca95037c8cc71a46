//! The exclusive editing-mode state machine. While in tile-paint mode only
//! tile requests are legal, while in occupant-paint mode only occupant
//! requests, and in normal mode no paint request at all. Entering and leaving
//! a mode yields the hook actions the rendering collaborator must perform:
//! show or hide the paint preview, refresh the cursor, and restore the
//! visibility of a level tile the preview was hovering over.

use vstd::prelude::*;

use crate::grid::{
    GridPosition, VisualHandle, GridError, LevelGrid, LevelGridView, pos_in_bounds,
};
use crate::edit::{
    EditRequest, ValidationRequested, spec_request_position, spec_validation_of,
    spec_apply_request, spec_request_disposals, process_edit_request,
};

verus! {

/// The exclusive editing mode. `NoSet` is the initial state: the editor has
/// not been entered yet, and the state the machine is torn down to on exit.
#[derive(Clone, Copy, PartialEq, Eq, Structural, Debug)]
pub enum StateEditorMode {
    NoSet,
    Normal,
    Tile,
    Hedgehog,
}

/// Which of the two editor views is on screen.
#[derive(Clone, Copy, PartialEq, Eq, Structural, Debug)]
pub enum StateEditorView {
    Level,
    TileSelector,
}

/// Flips between the level view and the tile-selector view.
pub fn toggle_view(view: StateEditorView) -> (next: StateEditorView)
    ensures
        view is Level ==> next is TileSelector,
        view is TileSelector ==> next is Level,
{
    match view {
        StateEditorView::Level => StateEditorView::TileSelector,
        StateEditorView::TileSelector => StateEditorView::Level,
    }
}

/// The two paint previews.
#[derive(Clone, Copy, PartialEq, Eq, Structural, Debug)]
pub enum PreviewKind {
    TilePreview,
    OccupantPreview,
}

/// An action the rendering collaborator must perform for this core: previews
/// and cursor are the mode hooks' concern, level-tile visibility is the
/// hover logic's concern.
#[derive(Clone, Copy, PartialEq, Eq, Structural, Debug)]
pub enum EditorHookAction {
    ShowPreview(PreviewKind),
    HidePreview(PreviewKind),
    RefreshCursor,
    ShowLevelTile(VisualHandle),
    HideLevelTile(VisualHandle),
}

/// Which requests a mode lets through to the edit processor.
pub open spec fn spec_request_allowed(mode: StateEditorMode, req: EditRequest) -> bool {
    match req {
        EditRequest::CreateTile { .. } => mode is Tile,
        EditRequest::RemoveTile { .. } => mode is Tile,
        EditRequest::CreateOccupant { .. } => mode is Hedgehog,
        EditRequest::RemoveOccupant { .. } => mode is Hedgehog,
    }
}

/// Decides whether the mode lets the request through.
pub fn request_allowed_in_mode(mode: StateEditorMode, req: &EditRequest) -> (b: bool)
    ensures
        b == spec_request_allowed(mode, *req),
{
    match req {
        EditRequest::CreateTile { .. } => matches!(mode, StateEditorMode::Tile),
        EditRequest::RemoveTile { .. } => matches!(mode, StateEditorMode::Tile),
        EditRequest::CreateOccupant { .. } => matches!(mode, StateEditorMode::Hedgehog),
        EditRequest::RemoveOccupant { .. } => matches!(mode, StateEditorMode::Hedgehog),
    }
}

/// A paint request of the wrong kind for the current mode is never let
/// through: occupant requests pass only in occupant-paint mode, tile
/// requests only in tile-paint mode.
pub proof fn lemma_mode_gates_requests(mode: StateEditorMode, req: EditRequest)
    ensures
        (req is CreateOccupant || req is RemoveOccupant) && !(mode is Hedgehog)
            ==> !spec_request_allowed(mode, req),
        (req is CreateTile || req is RemoveTile) && !(mode is Tile)
            ==> !spec_request_allowed(mode, req),
{
}

/// Submits one paint request through the mode gate: a request the current
/// mode does not allow is ignored and nothing is touched; an allowed one is
/// handed to the edit processor.
pub fn submit_edit_request(
    mode: StateEditorMode,
    grid: &mut LevelGrid,
    req: &EditRequest,
    queue: &mut Vec<ValidationRequested>,
    disposals: &mut Vec<VisualHandle>,
) -> (accepted: bool)
    ensures
        accepted == (spec_request_allowed(mode, *req) && pos_in_bounds(spec_request_position(
            *req))),
        !spec_request_allowed(mode, *req) || !pos_in_bounds(spec_request_position(*req)) ==> {
            &&& final(grid)@ == old(grid)@
            &&& final(queue)@ == old(queue)@
            &&& final(disposals)@ == old(disposals)@
        },
        spec_request_allowed(mode, *req) && pos_in_bounds(spec_request_position(*req)) ==> {
            &&& final(grid)@ == spec_apply_request(old(grid)@, *req)
            &&& final(queue)@ == old(queue)@.push(spec_validation_of(*req))
            &&& final(disposals)@ == old(disposals)@ + spec_request_disposals(old(grid)@, *req)
        },
{
    if !request_allowed_in_mode(mode, req) {
        return false;
    }
    match process_edit_request(grid, req, queue, disposals) {
        Ok(()) => true,
        Err(GridError::OutOfBounds) => false,
    }
}

/// Local buffer of the tile-paint mode: which palette entry is selected, and
/// which level tile the preview is hovering over (that tile is hidden so the
/// preview shows in its place).
pub struct ModeTileLocalBuffer {
    pub selected_idx: usize,
    pub hover_tile: Option<VisualHandle>,
    pub hover_tile_grid_position: Option<GridPosition>,
}

impl ModeTileLocalBuffer {
    /// Builds the buffer in its reset state.
    pub fn new() -> (b: ModeTileLocalBuffer)
        ensures
            b.selected_idx == 0,
            b.hover_tile is None,
            b.hover_tile_grid_position is None,
    {
        ModeTileLocalBuffer { selected_idx: 0, hover_tile: None, hover_tile_grid_position: None }
    }

    /// Records the palette entry the operator selected.
    pub fn set_selected_tile(&mut self, idx: usize)
        ensures
            *final(self) == (ModeTileLocalBuffer { selected_idx: idx, ..*old(self) }),
    {
        self.selected_idx = idx;
    }
}

/// The restore action for a previously hidden hover tile, if any.
pub open spec fn spec_restore_hover_actions(hover: Option<VisualHandle>) -> Seq<
    EditorHookAction,
> {
    match hover {
        Some(handle) => seq![EditorHookAction::ShowLevelTile(handle)],
        None => Seq::empty(),
    }
}

/// The hide action for the tile at the cursor cell, if that cell holds one.
pub open spec fn spec_hide_hover_actions(v: LevelGridView, cursor: GridPosition) -> Seq<
    EditorHookAction,
> {
    if !(v.tile_at(cursor.x as int, cursor.z as int).tile_behaviour is Empty) {
        match v.tile_at(cursor.x as int, cursor.z as int).tile_entity {
            Some(handle) => seq![EditorHookAction::HideLevelTile(handle)],
            None => Seq::empty(),
        }
    } else {
        Seq::empty()
    }
}

/// The visual the hover buffer registers for the cursor cell: the cell's
/// tile visual where the cell holds a tile, nothing where it is empty.
pub open spec fn spec_new_hover_tile(v: LevelGridView, cursor: GridPosition) -> Option<
    VisualHandle,
> {
    if !(v.tile_at(cursor.x as int, cursor.z as int).tile_behaviour is Empty) {
        v.tile_at(cursor.x as int, cursor.z as int).tile_entity
    } else {
        None
    }
}

/// Moves the tile-paint preview to the cursor cell: the previously hidden
/// hover tile is made visible again, the tile now hovered over (if the cell
/// holds one) is hidden, and the buffer records the new hover state.
pub fn update_tile_creator_position(
    buffer: &mut ModeTileLocalBuffer,
    grid: &LevelGrid,
    cursor: GridPosition,
) -> (actions: Vec<EditorHookAction>)
    requires
        pos_in_bounds(cursor),
    ensures
        actions@ == spec_restore_hover_actions(old(buffer).hover_tile) + spec_hide_hover_actions(
            grid@,
            cursor,
        ),
        final(buffer).hover_tile == spec_new_hover_tile(grid@, cursor),
        final(buffer).hover_tile_grid_position == Some(cursor),
        final(buffer).selected_idx == old(buffer).selected_idx,
{
    let mut actions: Vec<EditorHookAction> = Vec::new();
    if let Some(handle) = buffer.hover_tile {
        actions.push(EditorHookAction::ShowLevelTile(handle));
    }
    let mut new_hover: Option<VisualHandle> = None;
    match grid.tile_at(cursor) {
        Ok(tile) => {
            match tile.tile_behaviour {
                crate::tiles::EnumeTileBehaviour::Empty => {},
                _ => {
                    new_hover = tile.tile_entity;
                    if let Some(handle) = tile.tile_entity {
                        actions.push(EditorHookAction::HideLevelTile(handle));
                    }
                },
            }
        },
        Err(_) => {},
    }
    buffer.hover_tile = new_hover;
    buffer.hover_tile_grid_position = Some(cursor);
    proof {
        assert(actions@ =~= spec_restore_hover_actions(old(buffer).hover_tile)
            + spec_hide_hover_actions(grid@, cursor));
    }
    actions
}

/// The hook actions of leaving a mode: hide that mode's preview; leaving
/// tile-paint mode also restores the hidden hover tile.
pub open spec fn spec_exit_actions(
    mode: StateEditorMode,
    hover: Option<VisualHandle>,
) -> Seq<EditorHookAction> {
    match mode {
        StateEditorMode::Tile => seq![EditorHookAction::HidePreview(PreviewKind::TilePreview)]
            + spec_restore_hover_actions(hover),
        StateEditorMode::Hedgehog => seq![EditorHookAction::HidePreview(
            PreviewKind::OccupantPreview,
        )],
        _ => Seq::empty(),
    }
}

/// The hook actions of entering a mode: show that mode's preview and force a
/// cursor refresh so the preview snaps to the current cell.
pub open spec fn spec_enter_actions(mode: StateEditorMode) -> Seq<EditorHookAction> {
    match mode {
        StateEditorMode::Tile => seq![
            EditorHookAction::ShowPreview(PreviewKind::TilePreview),
            EditorHookAction::RefreshCursor,
        ],
        StateEditorMode::Hedgehog => seq![
            EditorHookAction::ShowPreview(PreviewKind::OccupantPreview),
            EditorHookAction::RefreshCursor,
        ],
        _ => Seq::empty(),
    }
}

/// The editing-mode state machine. Modes cycle for the editor's whole
/// lifetime; only the lifecycle coordinator tears it down to `NoSet`.
pub struct ModeController {
    pub mode: StateEditorMode,
}

impl ModeController {
    /// Builds the machine in its initial state.
    pub fn new() -> (c: ModeController)
        ensures
            c.mode is NoSet,
    {
        ModeController { mode: StateEditorMode::NoSet }
    }

    /// Switches to `next`, running the exit hook of the old mode and the
    /// enter hook of the new one; the actions are returned in that order.
    /// Leaving tile-paint mode restores the hover tile recorded in `hover`,
    /// and the buffer's hover record is cleared.
    pub fn set_mode(
        &mut self,
        next: StateEditorMode,
        buffer: &mut ModeTileLocalBuffer,
    ) -> (actions: Vec<EditorHookAction>)
        ensures
            final(self).mode == next,
            actions@ == spec_exit_actions(old(self).mode, old(buffer).hover_tile)
                + spec_enter_actions(next),
            final(buffer).hover_tile is None,
            final(buffer).hover_tile_grid_position == old(buffer).hover_tile_grid_position,
            final(buffer).selected_idx == old(buffer).selected_idx,
    {
        let mut actions: Vec<EditorHookAction> = Vec::new();
        match self.mode {
            StateEditorMode::Tile => {
                actions.push(EditorHookAction::HidePreview(PreviewKind::TilePreview));
                if let Some(handle) = buffer.hover_tile {
                    actions.push(EditorHookAction::ShowLevelTile(handle));
                }
            },
            StateEditorMode::Hedgehog => {
                actions.push(EditorHookAction::HidePreview(PreviewKind::OccupantPreview));
            },
            _ => {},
        }
        buffer.hover_tile = None;
        match next {
            StateEditorMode::Tile => {
                actions.push(EditorHookAction::ShowPreview(PreviewKind::TilePreview));
                actions.push(EditorHookAction::RefreshCursor);
            },
            StateEditorMode::Hedgehog => {
                actions.push(EditorHookAction::ShowPreview(PreviewKind::OccupantPreview));
                actions.push(EditorHookAction::RefreshCursor);
            },
            _ => {},
        }
        self.mode = next;
        proof {
            assert(actions@ =~= spec_exit_actions(old(self).mode, old(buffer).hover_tile)
                + spec_enter_actions(next));
        }
        actions
    }
}

} // verus!
