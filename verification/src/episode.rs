//! Episodes: a grid of level UIDs that groups levels into a campaign. An
//! episode is created once with a fresh UID and an empty level grid; running
//! one makes it current, and its origin cell names the level to enter first.

use vstd::prelude::*;

use crate::level::{Level, ResCurrentLevel, create_new_level, run_level, is_version4_uid,
    fresh_uuid_v4, spec_find_level};
use crate::grid::{LevelGrid, spec_empty_grid_view};

verus! {

/// Width of the episode's level grid.
pub const EPISODE_DEFAULT_HORIZONTAL_SIZE: usize = 10;

/// Height of the episode's level grid.
pub const EPISODE_DEFAULT_VERTICAL_SIZE: usize = 10;

/// Number of cells of the episode's level grid.
pub const EPISODE_CELL_COUNT: usize = EPISODE_DEFAULT_VERTICAL_SIZE
    * EPISODE_DEFAULT_HORIZONTAL_SIZE;

/// Cell the first level of an episode is placed at.
pub const DEFAULT_EPISODE_START_LOCATION_X: usize = 0;

/// Cell the first level of an episode is placed at.
pub const DEFAULT_EPISODE_START_LOCATION_Y: usize = 5;

/// Display name and on-disk location of an episode.
pub struct EpisodeInfo {
    pub level_name: String,
    pub level_path: String,
}

/// The UID component of an episode entity.
#[derive(Clone, Copy, PartialEq, Eq, Structural, Debug)]
pub struct EpisodeUID {
    pub uid: u128,
}

/// The grid of level UIDs an episode owns, stored row-major.
pub struct EpisodeGrid {
    pub episode_grid: Vec<Option<u128>>,
}

impl EpisodeGrid {
    /// The grid covers exactly its fixed cell count.
    pub open spec fn wf(self) -> bool {
        self.episode_grid@.len() == EPISODE_CELL_COUNT
    }

    /// Builds a grid with no level anywhere.
    pub fn new() -> (g: EpisodeGrid)
        ensures
            g.wf(),
            forall|k: int| 0 <= k < EPISODE_CELL_COUNT ==> g.episode_grid@[k] is None,
    {
        let mut cells: Vec<Option<u128>> = Vec::new();
        let mut i: usize = 0;
        while i < EPISODE_CELL_COUNT
            invariant
                i <= EPISODE_CELL_COUNT,
                cells@.len() == i,
                forall|k: int| 0 <= k < i ==> cells@[k] is None,
            decreases EPISODE_CELL_COUNT - i,
        {
            cells.push(None);
            i = i + 1;
        }
        EpisodeGrid { episode_grid: cells }
    }

    /// Copies the grid cell by cell.
    pub fn snapshot(&self) -> (g: EpisodeGrid)
        ensures
            g.episode_grid@ == self.episode_grid@,
    {
        let mut cells: Vec<Option<u128>> = Vec::new();
        let n = self.episode_grid.len();
        let mut i: usize = 0;
        while i < n
            invariant
                i <= n,
                n == self.episode_grid@.len(),
                cells@ == self.episode_grid@.take(i as int),
            decreases n - i,
        {
            cells.push(self.episode_grid[i]);
            proof {
                assert(cells@ =~= self.episode_grid@.take(i + 1));
            }
            i = i + 1;
        }
        proof {
            assert(self.episode_grid@.take(n as int) =~= self.episode_grid@);
        }
        EpisodeGrid { episode_grid: cells }
    }
}

/// Which episode is current: its UID and its index in the episode store.
#[derive(Clone, Copy, PartialEq, Eq, Structural, Debug)]
pub struct ResCurEpisode {
    pub episode_entity: Option<usize>,
    pub episode_uid: Option<u128>,
}

/// An episode entity: its info, UID and level grid.
pub struct Episode {
    pub info: EpisodeInfo,
    pub uid: EpisodeUID,
    pub grid: EpisodeGrid,
}

/// Creates an episode once: a fresh UID, the given name and path, and an
/// empty level grid, appended to the episode store.
pub fn create_new_episode(
    episodes: &mut Vec<Episode>,
    episode_name: String,
    episode_path: String,
) -> (uid: u128)
    ensures
        is_version4_uid(uid),
        final(episodes)@.len() == old(episodes)@.len() + 1,
        forall|i: int| 0 <= i < old(episodes)@.len() ==> final(episodes)@[i] == old(episodes)@[i],
        final(episodes)@.last().uid.uid == uid,
        final(episodes)@.last().info.level_name@ == episode_name@,
        final(episodes)@.last().info.level_path@ == episode_path@,
        final(episodes)@.last().grid.wf(),
        forall|k: int|
            0 <= k < EPISODE_CELL_COUNT ==> final(episodes)@.last().grid.episode_grid@[k] is None,
{
    let uid = fresh_uuid_v4();
    episodes.push(Episode {
        info: EpisodeInfo { level_name: episode_name, level_path: episode_path },
        uid: EpisodeUID { uid },
        grid: EpisodeGrid::new(),
    });
    uid
}

/// Creates a fresh level and registers its UID at the given cell of the
/// current episode's level grid.
pub fn create_level_on_curr_episode_at_position(
    pos_x: usize,
    pos_y: usize,
    levels: &mut Vec<Level>,
    r_cur_episode_grid: &mut EpisodeGrid,
) -> (uid: u128)
    requires
        pos_x < EPISODE_DEFAULT_VERTICAL_SIZE,
        pos_y < EPISODE_DEFAULT_HORIZONTAL_SIZE,
        old(r_cur_episode_grid).wf(),
    ensures
        is_version4_uid(uid),
        final(levels)@.len() == old(levels)@.len() + 1,
        forall|i: int| 0 <= i < old(levels)@.len() ==> final(levels)@[i] == old(levels)@[i],
        final(levels)@.last().uid.uid == Some(uid),
        final(levels)@.last().grid@ == spec_empty_grid_view(),
        final(r_cur_episode_grid).wf(),
        final(r_cur_episode_grid).episode_grid@ == old(r_cur_episode_grid).episode_grid@.update(
            pos_x * EPISODE_DEFAULT_HORIZONTAL_SIZE + pos_y,
            Some(uid),
        ),
{
    let level_uid = create_new_level(levels);
    let index = pos_x * EPISODE_DEFAULT_HORIZONTAL_SIZE + pos_y;
    r_cur_episode_grid.episode_grid[index] = Some(level_uid);
    level_uid
}

/// Makes an episode current: its UID and entity index are recorded and its
/// level grid is copied into the current episode grid.
pub fn run_episode(
    r_cur_episode: &mut ResCurEpisode,
    r_cur_episode_grid: &mut EpisodeGrid,
    episode_entity: usize,
    episode_uid: &EpisodeUID,
    episode_grid: &EpisodeGrid,
)
    ensures
        final(r_cur_episode).episode_uid == Some(episode_uid.uid),
        final(r_cur_episode).episode_entity == Some(episode_entity),
        final(r_cur_episode_grid).episode_grid@ == episode_grid.episode_grid@,
{
    r_cur_episode.episode_uid = Some(episode_uid.uid);
    r_cur_episode.episode_entity = Some(episode_entity);
    *r_cur_episode_grid = episode_grid.snapshot();
}

/// The UID registered at the episode's origin cell.
pub open spec fn spec_origin_cell(g: EpisodeGrid) -> Option<u128> {
    g.episode_grid@[DEFAULT_EPISODE_START_LOCATION_X as int
        * EPISODE_DEFAULT_HORIZONTAL_SIZE as int + DEFAULT_EPISODE_START_LOCATION_Y as int]
}

/// Enters the level registered at the current episode's origin cell: with a
/// level UID there, the level is made current as `run_level` does; with
/// none, nothing changes.
pub fn run_origin_level_on_curr_episode(
    r_cur_episode_grid: &EpisodeGrid,
    r_cur_level: &mut ResCurrentLevel,
    r_cur_level_grid: &mut LevelGrid,
    q_levels: &Vec<Level>,
)
    requires
        r_cur_episode_grid.wf(),
    ensures
        spec_origin_cell(*r_cur_episode_grid) is None ==> *final(r_cur_level) == *old(r_cur_level)
            && final(r_cur_level_grid)@ == old(r_cur_level_grid)@,
        spec_origin_cell(*r_cur_episode_grid) matches Some(uid) ==> {
            &&& spec_find_level(q_levels@, uid) is None ==> *final(r_cur_level) == *old(
                r_cur_level,
            ) && final(r_cur_level_grid)@ == old(r_cur_level_grid)@
            &&& spec_find_level(q_levels@, uid) matches Some(i) ==> {
                &&& final(r_cur_level_grid)@ == q_levels@[i].grid@
                &&& final(r_cur_level).level_uid == Some(uid)
                &&& final(r_cur_level).level_entity == Some(i as usize)
            }
        },
{
    let index = DEFAULT_EPISODE_START_LOCATION_X * EPISODE_DEFAULT_HORIZONTAL_SIZE
        + DEFAULT_EPISODE_START_LOCATION_Y;
    match r_cur_episode_grid.episode_grid[index] {
        None => {},
        Some(level_uid) => {
            run_level(level_uid, r_cur_level, r_cur_level_grid, q_levels);
        },
    }
}

} // verus!
