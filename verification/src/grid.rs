//! The grid store: the working N x N grid of tile cells and occupant cells,
//! with atomic cell mutation primitives.
//!
//! Coordinates are assumed pre-clamped by the collaborator that produced them;
//! every mutation primitive still performs a defensive bounds check and
//! signals `OutOfBounds` instead of touching the grid. Visual handles are
//! weak back-references into the rendering collaborator's arena: the store
//! never dereferences one, it only hands them back for disposal.

use vstd::prelude::*;

use crate::tiles::{EnumTilesId, EnumeTileBehaviour, EnumHedgehogOnGrid, HedgehogType};

verus! {

/// Side length of the level grid.
pub const LEVEL_DEFAULT_SIZE: usize = 10;

/// Number of cells of the level grid.
pub const GRID_CELL_COUNT: usize = LEVEL_DEFAULT_SIZE * LEVEL_DEFAULT_SIZE;

/// A cell coordinate: `x` and `z` each range over `[0, LEVEL_DEFAULT_SIZE)`.
#[derive(Clone, Copy, PartialEq, Eq, Structural, Debug)]
pub struct GridPosition {
    pub x: usize,
    pub z: usize,
}

/// Opaque, weakly-referenced handle to a renderable object owned by the
/// rendering collaborator (arena index plus generation).
#[derive(Clone, Copy, PartialEq, Eq, Structural, Debug)]
pub struct VisualHandle {
    pub index: u32,
    pub generation: u32,
}

/// Fault signal of the grid store's defensive bounds check.
#[derive(Clone, Copy, PartialEq, Eq, Structural, Debug)]
pub enum GridError {
    OutOfBounds,
}

/// One grid square's terrain state.
#[derive(Clone, Copy, PartialEq, Eq, Structural, Debug)]
pub struct LevelGridTile {
    pub tile_id: Option<EnumTilesId>,
    pub tile_entity: Option<VisualHandle>,
    pub tile_behaviour: EnumeTileBehaviour,
}

/// One grid square's occupant state.
#[derive(Clone, Copy, PartialEq, Eq, Structural, Debug)]
pub struct LevelGridHedgehog {
    pub hedgehog_behaviour: EnumHedgehogOnGrid,
    pub hedgehog_entity: Option<VisualHandle>,
    pub hedgehog_tile: Option<HedgehogType>,
}

impl LevelGridTile {
    /// The absence state of a tile cell.
    pub open spec fn spec_empty() -> LevelGridTile {
        LevelGridTile {
            tile_id: None,
            tile_entity: None,
            tile_behaviour: EnumeTileBehaviour::Empty,
        }
    }

    /// Builds the absence state of a tile cell.
    pub fn empty() -> (t: LevelGridTile)
        ensures
            t == LevelGridTile::spec_empty(),
    {
        LevelGridTile {
            tile_id: None,
            tile_entity: None,
            tile_behaviour: EnumeTileBehaviour::Empty,
        }
    }
}

impl LevelGridHedgehog {
    /// The absence state of an occupant cell.
    pub open spec fn spec_empty() -> LevelGridHedgehog {
        LevelGridHedgehog {
            hedgehog_behaviour: EnumHedgehogOnGrid::Empty,
            hedgehog_entity: None,
            hedgehog_tile: None,
        }
    }

    /// Builds the absence state of an occupant cell.
    pub fn empty() -> (h: LevelGridHedgehog)
        ensures
            h == LevelGridHedgehog::spec_empty(),
    {
        LevelGridHedgehog {
            hedgehog_behaviour: EnumHedgehogOnGrid::Empty,
            hedgehog_entity: None,
            hedgehog_tile: None,
        }
    }
}

/// Whether `(x, z)` lies on the grid.
pub open spec fn coord_in_range(x: int, z: int) -> bool {
    &&& 0 <= x < LEVEL_DEFAULT_SIZE
    &&& 0 <= z < LEVEL_DEFAULT_SIZE
}

/// Whether a coordinate lies on the grid.
pub open spec fn pos_in_bounds(p: GridPosition) -> bool {
    coord_in_range(p.x as int, p.z as int)
}

/// Row-major index of cell `(x, z)` in the flat cell sequences.
pub open spec fn spec_cell_index(x: int, z: int) -> int {
    x * (LEVEL_DEFAULT_SIZE as int) + z
}

/// Mathematical model of the grid: the two flat cell sequences, row-major.
#[verifier::ext_equal]
pub struct LevelGridView {
    pub tiles: Seq<LevelGridTile>,
    pub hedgehogs: Seq<LevelGridHedgehog>,
}

impl LevelGridView {
    /// Both cell sequences cover exactly the N x N grid.
    pub open spec fn wf(self) -> bool {
        &&& self.tiles.len() == GRID_CELL_COUNT
        &&& self.hedgehogs.len() == GRID_CELL_COUNT
    }

    /// The tile cell at `(x, z)`.
    pub open spec fn tile_at(self, x: int, z: int) -> LevelGridTile {
        self.tiles[spec_cell_index(x, z)]
    }

    /// The occupant cell at `(x, z)`.
    pub open spec fn hedgehog_at(self, x: int, z: int) -> LevelGridHedgehog {
        self.hedgehogs[spec_cell_index(x, z)]
    }

    /// The grid with the tile cell at `(x, z)` replaced by `t`.
    pub open spec fn with_tile(self, x: int, z: int, t: LevelGridTile) -> LevelGridView {
        LevelGridView { tiles: self.tiles.update(spec_cell_index(x, z), t), ..self }
    }

    /// The grid with the occupant cell at `(x, z)` replaced by `h`.
    pub open spec fn with_hedgehog(self, x: int, z: int, h: LevelGridHedgehog) -> LevelGridView {
        LevelGridView { hedgehogs: self.hedgehogs.update(spec_cell_index(x, z), h), ..self }
    }

    /// Whether an occupant stands at `(x, z)`.
    pub open spec fn occupant_present(self, x: int, z: int) -> bool {
        self.hedgehog_at(x, z).hedgehog_behaviour is HedgehogAlive
    }

    /// Occupancy invariant: an occupant stands only on a floor tile.
    pub open spec fn inv_occupancy(self) -> bool {
        forall|x: int, z: int|
            coord_in_range(x, z) && #[trigger] self.occupant_present(x, z)
                ==> self.tile_at(x, z).tile_behaviour is TileBFloor
    }

    /// The tile cell at `(x, z)` carries a visual exactly when it holds a tile.
    pub open spec fn tile_ref_consistent(self, x: int, z: int) -> bool {
        (self.tile_at(x, z).tile_entity is Some) == !(self.tile_at(x, z).tile_behaviour is Empty)
    }

    /// The occupant cell at `(x, z)` carries a visual exactly when an occupant
    /// stands there.
    pub open spec fn hedgehog_ref_consistent(self, x: int, z: int) -> bool {
        (self.hedgehog_at(x, z).hedgehog_entity is Some) == self.occupant_present(x, z)
    }

    /// Reference invariant: a cell carries a visual back-reference exactly
    /// when it holds something to render.
    pub open spec fn inv_reference(self) -> bool {
        &&& forall|x: int, z: int|
            coord_in_range(x, z) ==> #[trigger] self.tile_ref_consistent(x, z)
        &&& forall|x: int, z: int|
            coord_in_range(x, z) ==> #[trigger] self.hedgehog_ref_consistent(x, z)
    }
}

/// The model of the grid every cell of which is absent.
pub open spec fn spec_empty_grid_view() -> LevelGridView {
    LevelGridView {
        tiles: Seq::new(GRID_CELL_COUNT as nat, |i: int| LevelGridTile::spec_empty()),
        hedgehogs: Seq::new(GRID_CELL_COUNT as nat, |i: int| LevelGridHedgehog::spec_empty()),
    }
}

/// The grid every cell of which is absent is well-formed and satisfies both
/// invariants: nothing stands anywhere, and no cell claims a visual.
pub proof fn lemma_empty_grid_invariants()
    ensures
        spec_empty_grid_view().wf(),
        spec_empty_grid_view().inv_occupancy(),
        spec_empty_grid_view().inv_reference(),
{
}

/// The working grid: two parallel N x N cell arrays, stored row-major.
pub struct LevelGrid {
    level_grid: Vec<LevelGridTile>,
    hedgehog_grid: Vec<LevelGridHedgehog>,
}

impl View for LevelGrid {
    type V = LevelGridView;

    closed spec fn view(&self) -> LevelGridView {
        LevelGridView { tiles: self.level_grid@, hedgehogs: self.hedgehog_grid@ }
    }
}

impl LevelGrid {
    /// The grid always models exactly the N x N cells.
    #[verifier::type_invariant]
    pub open spec fn wf(self) -> bool {
        self@.wf()
    }

    /// Builds a grid with every cell absent.
    pub fn new() -> (g: LevelGrid)
        ensures
            g@ == spec_empty_grid_view(),
    {
        let mut tiles: Vec<LevelGridTile> = Vec::new();
        let mut hedgehogs: Vec<LevelGridHedgehog> = Vec::new();
        let mut i: usize = 0;
        while i < GRID_CELL_COUNT
            invariant
                i <= GRID_CELL_COUNT,
                tiles@.len() == i,
                hedgehogs@.len() == i,
                forall|j: int| 0 <= j < i ==> tiles@[j] == LevelGridTile::spec_empty(),
                forall|j: int| 0 <= j < i ==> hedgehogs@[j] == LevelGridHedgehog::spec_empty(),
            decreases GRID_CELL_COUNT - i,
        {
            tiles.push(LevelGridTile::empty());
            hedgehogs.push(LevelGridHedgehog::empty());
            i = i + 1;
        }
        let g = LevelGrid { level_grid: tiles, hedgehog_grid: hedgehogs };
        proof {
            assert(g@ =~= spec_empty_grid_view());
        }
        g
    }

    /// Flat index of an in-bounds coordinate.
    fn cell_index(pos: GridPosition) -> (i: usize)
        requires
            pos_in_bounds(pos),
        ensures
            i == spec_cell_index(pos.x as int, pos.z as int),
            i < GRID_CELL_COUNT,
    {
        pos.x * LEVEL_DEFAULT_SIZE + pos.z
    }

    /// Unconditionally overwrites the tile cell at `pos` with the given tile,
    /// returning the previous visual back-reference for disposal. No legality
    /// check happens here; legality is the edit processor's job.
    pub fn set_tile(
        &mut self,
        pos: GridPosition,
        tile_id: EnumTilesId,
        behaviour: EnumeTileBehaviour,
        visual: VisualHandle,
    ) -> (r: Result<Option<VisualHandle>, GridError>)
        ensures
            pos_in_bounds(pos) ==> {
                &&& r == Ok::<Option<VisualHandle>, GridError>(
                    old(self)@.tile_at(pos.x as int, pos.z as int).tile_entity)
                &&& final(self)@ == old(self)@.with_tile(pos.x as int, pos.z as int,
                    (LevelGridTile {
                        tile_id: Some(tile_id),
                        tile_entity: Some(visual),
                        tile_behaviour: behaviour,
                    }))
            },
            !pos_in_bounds(pos) ==> {
                &&& r == Err::<Option<VisualHandle>, GridError>(GridError::OutOfBounds)
                &&& final(self)@ == old(self)@
            },
    {
        proof {
            use_type_invariant(&*self);
        }
        if pos.x >= LEVEL_DEFAULT_SIZE || pos.z >= LEVEL_DEFAULT_SIZE {
            return Err(GridError::OutOfBounds);
        }
        let i = Self::cell_index(pos);
        let previous = self.level_grid[i].tile_entity;
        self.level_grid[i] = LevelGridTile {
            tile_id: Some(tile_id),
            tile_entity: Some(visual),
            tile_behaviour: behaviour,
        };
        Ok(previous)
    }

    /// Sets the tile cell at `pos` back to the absence state, returning the
    /// previous visual back-reference for disposal.
    pub fn clear_tile(&mut self, pos: GridPosition) -> (r: Result<Option<VisualHandle>, GridError>)
        ensures
            pos_in_bounds(pos) ==> {
                &&& r == Ok::<Option<VisualHandle>, GridError>(
                    old(self)@.tile_at(pos.x as int, pos.z as int).tile_entity)
                &&& final(self)@ == old(self)@.with_tile(pos.x as int, pos.z as int,
                    LevelGridTile::spec_empty())
            },
            !pos_in_bounds(pos) ==> {
                &&& r == Err::<Option<VisualHandle>, GridError>(GridError::OutOfBounds)
                &&& final(self)@ == old(self)@
            },
    {
        proof {
            use_type_invariant(&*self);
        }
        if pos.x >= LEVEL_DEFAULT_SIZE || pos.z >= LEVEL_DEFAULT_SIZE {
            return Err(GridError::OutOfBounds);
        }
        let i = Self::cell_index(pos);
        let previous = self.level_grid[i].tile_entity;
        self.level_grid[i] = LevelGridTile::empty();
        Ok(previous)
    }

    /// Unconditionally overwrites the occupant cell at `pos` with a standing
    /// occupant of the given kind, returning the previous visual
    /// back-reference for disposal.
    pub fn set_occupant(
        &mut self,
        pos: GridPosition,
        occupant_kind: HedgehogType,
        visual: VisualHandle,
    ) -> (r: Result<Option<VisualHandle>, GridError>)
        ensures
            pos_in_bounds(pos) ==> {
                &&& r == Ok::<Option<VisualHandle>, GridError>(
                    old(self)@.hedgehog_at(pos.x as int, pos.z as int).hedgehog_entity)
                &&& final(self)@ == old(self)@.with_hedgehog(pos.x as int, pos.z as int,
                    (LevelGridHedgehog {
                        hedgehog_behaviour: EnumHedgehogOnGrid::HedgehogAlive,
                        hedgehog_entity: Some(visual),
                        hedgehog_tile: Some(occupant_kind),
                    }))
            },
            !pos_in_bounds(pos) ==> {
                &&& r == Err::<Option<VisualHandle>, GridError>(GridError::OutOfBounds)
                &&& final(self)@ == old(self)@
            },
    {
        proof {
            use_type_invariant(&*self);
        }
        if pos.x >= LEVEL_DEFAULT_SIZE || pos.z >= LEVEL_DEFAULT_SIZE {
            return Err(GridError::OutOfBounds);
        }
        let i = Self::cell_index(pos);
        let previous = self.hedgehog_grid[i].hedgehog_entity;
        self.hedgehog_grid[i] = LevelGridHedgehog {
            hedgehog_behaviour: EnumHedgehogOnGrid::HedgehogAlive,
            hedgehog_entity: Some(visual),
            hedgehog_tile: Some(occupant_kind),
        };
        Ok(previous)
    }

    /// Sets the occupant cell at `pos` back to the absence state, returning
    /// the previous visual back-reference for disposal.
    pub fn clear_occupant(&mut self, pos: GridPosition) -> (r: Result<
        Option<VisualHandle>,
        GridError,
    >)
        ensures
            pos_in_bounds(pos) ==> {
                &&& r == Ok::<Option<VisualHandle>, GridError>(
                    old(self)@.hedgehog_at(pos.x as int, pos.z as int).hedgehog_entity)
                &&& final(self)@ == old(self)@.with_hedgehog(pos.x as int, pos.z as int,
                    LevelGridHedgehog::spec_empty())
            },
            !pos_in_bounds(pos) ==> {
                &&& r == Err::<Option<VisualHandle>, GridError>(GridError::OutOfBounds)
                &&& final(self)@ == old(self)@
            },
    {
        proof {
            use_type_invariant(&*self);
        }
        if pos.x >= LEVEL_DEFAULT_SIZE || pos.z >= LEVEL_DEFAULT_SIZE {
            return Err(GridError::OutOfBounds);
        }
        let i = Self::cell_index(pos);
        let previous = self.hedgehog_grid[i].hedgehog_entity;
        self.hedgehog_grid[i] = LevelGridHedgehog::empty();
        Ok(previous)
    }

    /// Reads the tile cell at `pos`.
    pub fn tile_at(&self, pos: GridPosition) -> (r: Result<LevelGridTile, GridError>)
        ensures
            pos_in_bounds(pos) ==> r == Ok::<LevelGridTile, GridError>(
                self@.tile_at(pos.x as int, pos.z as int)),
            !pos_in_bounds(pos) ==> r == Err::<LevelGridTile, GridError>(GridError::OutOfBounds),
    {
        proof {
            use_type_invariant(&*self);
        }
        if pos.x >= LEVEL_DEFAULT_SIZE || pos.z >= LEVEL_DEFAULT_SIZE {
            return Err(GridError::OutOfBounds);
        }
        let i = Self::cell_index(pos);
        Ok(self.level_grid[i])
    }

    /// Reads the occupant cell at `pos`.
    pub fn hedgehog_at(&self, pos: GridPosition) -> (r: Result<LevelGridHedgehog, GridError>)
        ensures
            pos_in_bounds(pos) ==> r == Ok::<LevelGridHedgehog, GridError>(
                self@.hedgehog_at(pos.x as int, pos.z as int)),
            !pos_in_bounds(pos) ==> r == Err::<LevelGridHedgehog, GridError>(
                GridError::OutOfBounds),
    {
        proof {
            use_type_invariant(&*self);
        }
        if pos.x >= LEVEL_DEFAULT_SIZE || pos.z >= LEVEL_DEFAULT_SIZE {
            return Err(GridError::OutOfBounds);
        }
        let i = Self::cell_index(pos);
        Ok(self.hedgehog_grid[i])
    }

    /// Copies the grid cell by cell.
    pub fn snapshot(&self) -> (g: LevelGrid)
        ensures
            g@ == self@,
    {
        proof {
            use_type_invariant(&*self);
        }
        let mut tiles: Vec<LevelGridTile> = Vec::new();
        let mut hedgehogs: Vec<LevelGridHedgehog> = Vec::new();
        let mut i: usize = 0;
        while i < GRID_CELL_COUNT
            invariant
                i <= GRID_CELL_COUNT,
                self@.wf(),
                tiles@ == self@.tiles.take(i as int),
                hedgehogs@ == self@.hedgehogs.take(i as int),
            decreases GRID_CELL_COUNT - i,
        {
            tiles.push(self.level_grid[i]);
            hedgehogs.push(self.hedgehog_grid[i]);
            proof {
                assert(tiles@ =~= self@.tiles.take(i + 1));
                assert(hedgehogs@ =~= self@.hedgehogs.take(i + 1));
            }
            i = i + 1;
        }
        let g = LevelGrid { level_grid: tiles, hedgehog_grid: hedgehogs };
        proof {
            assert(g@ =~= self@);
        }
        g
    }

    /// Compares two grids cell by cell.
    pub fn grid_eq(&self, other: &LevelGrid) -> (r: bool)
        ensures
            r == (self@ == other@),
    {
        proof {
            use_type_invariant(&*self);
            use_type_invariant(&*other);
        }
        let mut i: usize = 0;
        while i < GRID_CELL_COUNT
            invariant
                i <= GRID_CELL_COUNT,
                self@.wf(),
                other@.wf(),
                forall|j: int| 0 <= j < i ==> self@.tiles[j] == other@.tiles[j],
                forall|j: int| 0 <= j < i ==> self@.hedgehogs[j] == other@.hedgehogs[j],
            decreases GRID_CELL_COUNT - i,
        {
            let t_same = self.level_grid[i] == other.level_grid[i];
            let h_same = self.hedgehog_grid[i] == other.hedgehog_grid[i];
            if !t_same || !h_same {
                return false;
            }
            i = i + 1;
        }
        proof {
            assert(self@ =~= other@);
        }
        true
    }
}

} // verus!
