//! Levels and the working-copy discipline. A level is an entity identified
//! by a UID and owning one persisted grid. The grid being edited is a
//! separate working copy: entering a level copies persisted to working,
//! saving copies working back to persisted. A level description summarizes a
//! grid for the persistence collaborator.

use vstd::prelude::*;

use crate::grid::{
    LevelGrid, LevelGridView, GridPosition, spec_empty_grid_view, spec_cell_index,
    LEVEL_DEFAULT_SIZE, GRID_CELL_COUNT,
};
use crate::tiles::{EnumTilesId, HedgehogType};

verus! {

/// A version-4 UID: the version nibble is 4 and the variant bits are `10`.
pub open spec fn is_version4_uid(u: u128) -> bool {
    &&& (u >> 76) & 0xf == 4
    &&& (u >> 62) & 0x3 == 2
}

/// Relies on `uuid::Uuid::new_v4`, which draws a fresh random UUID and
/// forces its version nibble to 4 and its variant bits to `10`, and on
/// `uuid::Uuid::as_u128`, which reads the UUID out as its 128 raw bits,
/// big-endian. Nothing more is assumed of a random value.
#[verifier::external_body]
pub(crate) fn fresh_uuid_v4() -> (r: u128)
    ensures
        is_version4_uid(r),
{
    uuid::Uuid::new_v4().as_u128()
}

/// The UID component of a level entity.
#[derive(Clone, Copy, PartialEq, Eq, Structural, Debug)]
pub struct LevelUid {
    pub uid: Option<u128>,
}

/// A level entity: a UID and the persisted grid it owns.
pub struct Level {
    pub uid: LevelUid,
    pub grid: LevelGrid,
}

/// Which level is currently being edited: its UID and its index in the
/// level store (the arena the rendering side calls an entity).
#[derive(Clone, Copy, PartialEq, Eq, Structural, Debug)]
pub struct ResCurrentLevel {
    pub level_uid: Option<u128>,
    pub level_entity: Option<usize>,
}

/// The index of the level carrying `uid`, taking the last match as the
/// level store does.
pub open spec fn spec_find_level(levels: Seq<Level>, uid: u128) -> Option<int>
    decreases levels.len(),
{
    if levels.len() == 0 {
        None
    } else if levels.last().uid.uid == Some(uid) {
        Some(levels.len() - 1)
    } else {
        spec_find_level(levels.drop_last(), uid)
    }
}

/// Creates a level once: a fresh UID and an empty grid, appended to the
/// level store. The UID is returned so the caller can make the level
/// current.
pub fn create_new_level(levels: &mut Vec<Level>) -> (uid: u128)
    ensures
        is_version4_uid(uid),
        final(levels)@.len() == old(levels)@.len() + 1,
        forall|i: int| 0 <= i < old(levels)@.len() ==> final(levels)@[i] == old(levels)@[i],
        final(levels)@.last().uid.uid == Some(uid),
        final(levels)@.last().grid@ == spec_empty_grid_view(),
{
    let uid = fresh_uuid_v4();
    levels.push(Level { uid: LevelUid { uid: Some(uid) }, grid: LevelGrid::new() });
    uid
}

/// Makes the level carrying `level_uid` current: its persisted grid is
/// copied into the working grid and the current-level record is updated.
/// When no level carries the UID, nothing changes.
pub fn run_level(
    level_uid: u128,
    r_cur_level: &mut ResCurrentLevel,
    r_cur_level_grid: &mut LevelGrid,
    q_levels: &Vec<Level>,
)
    ensures
        spec_find_level(q_levels@, level_uid) is None ==> *final(r_cur_level) == *old(r_cur_level)
            && final(r_cur_level_grid)@ == old(r_cur_level_grid)@,
        spec_find_level(q_levels@, level_uid) matches Some(i) ==> {
            &&& final(r_cur_level_grid)@ == q_levels@[i].grid@
            &&& final(r_cur_level).level_uid == Some(level_uid)
            &&& final(r_cur_level).level_entity == Some(i as usize)
        },
{
    let ghost all = q_levels@;
    let mut found: Option<usize> = None;
    let n = q_levels.len();
    let mut i: usize = 0;
    proof {
        assert(all.take(0) =~= Seq::<Level>::empty());
    }
    while i < n
        invariant
            i <= n,
            n == all.len(),
            q_levels@ == all,
            match found {
                None => spec_find_level(all.take(i as int), level_uid) is None,
                Some(b) => b < i && spec_find_level(all.take(i as int), level_uid) == Some(
                    b as int,
                ),
            },
        decreases n - i,
    {
        let level = &q_levels[i];
        match level.uid.uid {
            Some(u) => {
                if u == level_uid {
                    found = Some(i);
                }
            },
            None => {},
        }
        proof {
            let prefix = all.take(i as int + 1);
            assert(prefix.last() == all[i as int]);
            assert(prefix.drop_last() =~= all.take(i as int));
        }
        i = i + 1;
    }
    proof {
        assert(all.take(n as int) =~= all);
    }
    match found {
        None => {},
        Some(index) => {
            *r_cur_level_grid = q_levels[index].grid.snapshot();
            r_cur_level.level_uid = Some(level_uid);
            r_cur_level.level_entity = Some(index);
        },
    }
}

/// Saves the working grid into the current level's persisted grid. With no
/// current level, or a stale index, nothing changes.
pub fn dump_current_level_ressource_to_components(
    r_cur_level: &ResCurrentLevel,
    r_cur_level_grid: &LevelGrid,
    q_levels: &mut Vec<Level>,
)
    ensures
        r_cur_level.level_entity is None ==> final(q_levels)@ == old(q_levels)@,
        r_cur_level.level_entity matches Some(i) ==> {
            &&& i >= old(q_levels)@.len() ==> final(q_levels)@ == old(q_levels)@
            &&& i < old(q_levels)@.len() ==> {
                &&& final(q_levels)@.len() == old(q_levels)@.len()
                &&& final(q_levels)@[i as int].uid == old(q_levels)@[i as int].uid
                &&& final(q_levels)@[i as int].grid@ == r_cur_level_grid@
                &&& forall|j: int|
                    0 <= j < old(q_levels)@.len() && j != i
                        ==> final(q_levels)@[j] == old(q_levels)@[j]
            }
        },
{
    match r_cur_level.level_entity {
        None => {},
        Some(index) => {
            if index < q_levels.len() {
                let uid = q_levels[index].uid;
                q_levels[index] = Level { uid, grid: r_cur_level_grid.snapshot() };
            }
        },
    }
}

/// With exactly one level carrying the UID, lookup finds that level.
proof fn lemma_find_level_unique(s: Seq<Level>, uid: u128, i: int)
    requires
        0 <= i < s.len(),
        s[i].uid.uid == Some(uid),
        forall|j: int| 0 <= j < s.len() && j != i ==> (#[trigger] s[j]).uid.uid != Some(uid),
    ensures
        spec_find_level(s, uid) == Some(i),
    decreases s.len(),
{
    if i == s.len() - 1 {
    } else {
        assert(s.last().uid.uid != Some(uid));
        assert forall|j: int| 0 <= j < s.drop_last().len() && j != i implies (#[trigger] s
            .drop_last()[j]).uid.uid != Some(uid) by {
            assert(s.drop_last()[j] == s[j]);
        }
        lemma_find_level_unique(s.drop_last(), uid, i);
    }
}

/// Round trip of the working-copy discipline: dumping the working grid into
/// the current level and then reloading that level's UID finds the same
/// level again and yields exactly the dumped grid. `levels` is the store
/// before the dump, `dumped` after it; the UID must be held by one level
/// only, as `create_new_level` hands out fresh UIDs.
pub proof fn lemma_level_round_trip(
    levels: Seq<Level>,
    dumped: Seq<Level>,
    i: int,
    uid: u128,
    g: LevelGridView,
)
    requires
        0 <= i < levels.len(),
        dumped.len() == levels.len(),
        forall|j: int| 0 <= j < levels.len() ==> (#[trigger] dumped[j]).uid == levels[j].uid,
        dumped[i].grid@ == g,
        levels[i].uid.uid == Some(uid),
        forall|j: int|
            0 <= j < levels.len() && j != i ==> (#[trigger] levels[j]).uid.uid != Some(uid),
    ensures
        spec_find_level(dumped, uid) == Some(i),
        dumped[i].grid@ == g,
{
    assert forall|j: int| 0 <= j < dumped.len() && j != i implies (#[trigger] dumped[j]).uid.uid
        != Some(uid) by {
        assert(dumped[j].uid == levels[j].uid);
    }
    assert(dumped[i].uid == levels[i].uid);
    lemma_find_level_unique(dumped, uid, i);
}

/// One cell of a level description: which tile model and which occupant
/// kind the cell holds.
#[derive(Clone, Copy, PartialEq, Eq, Structural, Debug)]
pub struct LevelDescriptionTile {
    pub tile: Option<EnumTilesId>,
    pub hedgehog: Option<HedgehogType>,
}

/// The serializable summary of a level: one description cell per grid cell,
/// row-major, and the level's UID.
pub struct LevelDescription {
    pub level_grid: Vec<LevelDescriptionTile>,
    pub uuid: u128,
}

/// The description cell a grid holds at flat index `k`.
pub open spec fn spec_description_cell(v: LevelGridView, k: int) -> LevelDescriptionTile {
    LevelDescriptionTile { tile: v.tiles[k].tile_id, hedgehog: v.hedgehogs[k].hedgehog_tile }
}

/// Summarizes the working grid into a level description for the persistence
/// collaborator: each cell keeps its tile model and occupant kind, visual
/// back-references are left behind.
pub fn generate_level_description(grid: &LevelGrid, uuid: u128) -> (d: LevelDescription)
    ensures
        d.uuid == uuid,
        d.level_grid@.len() == GRID_CELL_COUNT,
        forall|k: int|
            0 <= k < GRID_CELL_COUNT ==> #[trigger] d.level_grid@[k] == spec_description_cell(
                grid@,
                k,
            ),
{
    let mut cells: Vec<LevelDescriptionTile> = Vec::new();
    let mut x: usize = 0;
    while x < LEVEL_DEFAULT_SIZE
        invariant
            x <= LEVEL_DEFAULT_SIZE,
            cells@.len() == x * LEVEL_DEFAULT_SIZE,
            forall|k: int|
                0 <= k < cells@.len() ==> #[trigger] cells@[k] == spec_description_cell(grid@, k),
        decreases LEVEL_DEFAULT_SIZE - x,
    {
        let mut z: usize = 0;
        while z < LEVEL_DEFAULT_SIZE
            invariant
                x < LEVEL_DEFAULT_SIZE,
                z <= LEVEL_DEFAULT_SIZE,
                cells@.len() == x * LEVEL_DEFAULT_SIZE + z,
                forall|k: int|
                    0 <= k < cells@.len() ==> #[trigger] cells@[k] == spec_description_cell(
                        grid@,
                        k,
                    ),
            decreases LEVEL_DEFAULT_SIZE - z,
        {
            let pos = GridPosition { x, z };
            let tile = match grid.tile_at(pos) {
                Ok(t) => t.tile_id,
                Err(_) => None,
            };
            let hedgehog = match grid.hedgehog_at(pos) {
                Ok(h) => h.hedgehog_tile,
                Err(_) => None,
            };
            proof {
                assert(spec_cell_index(x as int, z as int) == cells@.len());
            }
            cells.push(LevelDescriptionTile { tile, hedgehog });
            z = z + 1;
        }
        x = x + 1;
    }
    LevelDescription { level_grid: cells, uuid }
}

} // verus!
