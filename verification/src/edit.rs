//! The edit pipeline: the edit command processor turns create/remove requests
//! into grid store mutations and raises one validation request per processed
//! request; the consistency validator drains those requests in FIFO order,
//! cascades occupant removals so the occupancy invariant is restored, and
//! announces completion with one batched notification.

use vstd::prelude::*;

use crate::grid::{
    GridPosition, VisualHandle, GridError, LevelGrid, LevelGridView, LevelGridTile,
    LevelGridHedgehog, pos_in_bounds, coord_in_range,
};
use crate::tiles::{EnumTilesId, EnumeTileBehaviour, EnumHedgehogOnGrid, HedgehogType};

verus! {

/// An edit request against the working grid. Creation requests carry the
/// handle of the visual object the rendering collaborator spawned for them;
/// this core never creates or dereferences a visual itself.
#[derive(Clone, Copy, PartialEq, Eq, Structural, Debug)]
pub enum EditRequest {
    CreateTile {
        grid_position: GridPosition,
        tile_id: EnumTilesId,
        behaviour: EnumeTileBehaviour,
        visual: VisualHandle,
    },
    RemoveTile { grid_position: GridPosition },
    CreateOccupant {
        grid_position: GridPosition,
        occupant_kind: HedgehogType,
        visual: VisualHandle,
    },
    RemoveOccupant { grid_position: GridPosition },
}

/// What kind of edit a validation request follows up on.
#[derive(Clone, Copy, PartialEq, Eq, Structural, Debug)]
pub enum ValidationPayload {
    AddedTile,
    RemovedTile,
    AddedOccupant,
    RemovedOccupant,
}

/// The follow-up message the processor enqueues for every processed request.
#[derive(Clone, Copy, PartialEq, Eq, Structural, Debug)]
pub struct ValidationRequested {
    pub grid_position: GridPosition,
    pub validation_payload: ValidationPayload,
}

/// The batched "the level changed" notification: exactly one per validation
/// pass, however many edits the pass contained.
#[derive(Clone, Copy, PartialEq, Eq, Structural, Debug)]
pub struct EventLevelEdidted;

/// The coordinate a request targets.
pub open spec fn spec_request_position(req: EditRequest) -> GridPosition {
    match req {
        EditRequest::CreateTile { grid_position, .. } => grid_position,
        EditRequest::RemoveTile { grid_position } => grid_position,
        EditRequest::CreateOccupant { grid_position, .. } => grid_position,
        EditRequest::RemoveOccupant { grid_position } => grid_position,
    }
}

/// The validation payload a request gives rise to.
pub open spec fn spec_payload_of(req: EditRequest) -> ValidationPayload {
    match req {
        EditRequest::CreateTile { .. } => ValidationPayload::AddedTile,
        EditRequest::RemoveTile { .. } => ValidationPayload::RemovedTile,
        EditRequest::CreateOccupant { .. } => ValidationPayload::AddedOccupant,
        EditRequest::RemoveOccupant { .. } => ValidationPayload::RemovedOccupant,
    }
}

/// The validation request a processed request enqueues.
pub open spec fn spec_validation_of(req: EditRequest) -> ValidationRequested {
    ValidationRequested {
        grid_position: spec_request_position(req),
        validation_payload: spec_payload_of(req),
    }
}

/// The validation requests of a whole request sequence, in request order.
pub open spec fn spec_validations_of(reqs: Seq<EditRequest>) -> Seq<ValidationRequested> {
    reqs.map_values(|r: EditRequest| spec_validation_of(r))
}

/// How processing one in-bounds request changes the grid.
pub open spec fn spec_apply_request(v: LevelGridView, req: EditRequest) -> LevelGridView {
    let x = spec_request_position(req).x as int;
    let z = spec_request_position(req).z as int;
    match req {
        EditRequest::CreateTile { tile_id, behaviour, visual, .. } => v.with_tile(x, z,
            LevelGridTile {
                tile_id: Some(tile_id),
                tile_entity: Some(visual),
                tile_behaviour: behaviour,
            }),
        EditRequest::RemoveTile { .. } => v.with_tile(x, z, LevelGridTile::spec_empty()),
        EditRequest::CreateOccupant { occupant_kind, visual, .. } => v.with_hedgehog(x, z,
            LevelGridHedgehog {
                hedgehog_behaviour: EnumHedgehogOnGrid::HedgehogAlive,
                hedgehog_entity: Some(visual),
                hedgehog_tile: Some(occupant_kind),
            }),
        EditRequest::RemoveOccupant { .. } => v.with_hedgehog(x, z,
            LevelGridHedgehog::spec_empty()),
    }
}

/// The sequence a visual back-reference contributes to a disposal list.
pub open spec fn spec_option_seq(h: Option<VisualHandle>) -> Seq<VisualHandle> {
    match h {
        Some(handle) => seq![handle],
        None => Seq::empty(),
    }
}

/// The visuals processing one request hands back for disposal: the previous
/// visual of the cell the request overwrites or clears.
pub open spec fn spec_request_disposals(v: LevelGridView, req: EditRequest) -> Seq<VisualHandle> {
    let x = spec_request_position(req).x as int;
    let z = spec_request_position(req).z as int;
    match req {
        EditRequest::CreateTile { .. } => spec_option_seq(v.tile_at(x, z).tile_entity),
        EditRequest::RemoveTile { .. } => spec_option_seq(v.tile_at(x, z).tile_entity),
        EditRequest::CreateOccupant { .. } => spec_option_seq(v.hedgehog_at(x, z).hedgehog_entity),
        EditRequest::RemoveOccupant { .. } => spec_option_seq(v.hedgehog_at(x, z).hedgehog_entity),
    }
}

/// Whether validating `r` clears the occupant at its coordinate: a removed
/// tile always cascades; an added tile cascades exactly when the tile now in
/// place is not a floor; occupant edits never cascade.
pub open spec fn spec_cascade_clears(v: LevelGridView, r: ValidationRequested) -> bool {
    match r.validation_payload {
        ValidationPayload::RemovedTile => true,
        ValidationPayload::AddedTile => !(v.tile_at(
            r.grid_position.x as int,
            r.grid_position.z as int,
        ).tile_behaviour is TileBFloor),
        ValidationPayload::AddedOccupant => false,
        ValidationPayload::RemovedOccupant => false,
    }
}

/// How validating one request changes the grid.
pub open spec fn spec_validate_one(v: LevelGridView, r: ValidationRequested) -> LevelGridView {
    if spec_cascade_clears(v, r) {
        v.with_hedgehog(r.grid_position.x as int, r.grid_position.z as int,
            LevelGridHedgehog::spec_empty())
    } else {
        v
    }
}

/// The visuals validating one request hands back for disposal.
pub open spec fn spec_validate_disposals(v: LevelGridView, r: ValidationRequested) -> Seq<
    VisualHandle,
> {
    if spec_cascade_clears(v, r) {
        spec_option_seq(v.hedgehog_at(r.grid_position.x as int, r.grid_position.z as int)
            .hedgehog_entity)
    } else {
        Seq::empty()
    }
}

/// How draining a validation queue in FIFO order changes the grid.
pub open spec fn spec_drain(v: LevelGridView, q: Seq<ValidationRequested>) -> LevelGridView
    decreases q.len(),
{
    if q.len() == 0 {
        v
    } else {
        spec_drain(spec_validate_one(v, q[0]), q.skip(1))
    }
}

/// The visuals draining a validation queue hands back for disposal, in order.
pub open spec fn spec_drain_disposals(v: LevelGridView, q: Seq<ValidationRequested>) -> Seq<
    VisualHandle,
>
    decreases q.len(),
{
    if q.len() == 0 {
        Seq::empty()
    } else {
        spec_validate_disposals(v, q[0]) + spec_drain_disposals(spec_validate_one(v, q[0]),
            q.skip(1))
    }
}

/// How processing a request sequence in order changes the grid.
pub open spec fn spec_process_requests(v: LevelGridView, reqs: Seq<EditRequest>) -> LevelGridView
    decreases reqs.len(),
{
    if reqs.len() == 0 {
        v
    } else {
        spec_process_requests(spec_apply_request(v, reqs[0]), reqs.skip(1))
    }
}

/// The visuals processing a request sequence hands back for disposal.
pub open spec fn spec_process_disposals(v: LevelGridView, reqs: Seq<EditRequest>) -> Seq<
    VisualHandle,
>
    decreases reqs.len(),
{
    if reqs.len() == 0 {
        Seq::empty()
    } else {
        spec_request_disposals(v, reqs[0]) + spec_process_disposals(
            spec_apply_request(v, reqs[0]),
            reqs.skip(1),
        )
    }
}

/// How a whole edit pass changes the grid: all requests are processed in
/// order, then the validation queue they raised is drained in the same order.
pub open spec fn spec_edit_pass(v: LevelGridView, reqs: Seq<EditRequest>) -> LevelGridView {
    spec_drain(spec_process_requests(v, reqs), spec_validations_of(reqs))
}

/// The visuals a whole edit pass hands back for disposal.
pub open spec fn spec_pass_disposals(v: LevelGridView, reqs: Seq<EditRequest>) -> Seq<
    VisualHandle,
> {
    spec_process_disposals(v, reqs) + spec_drain_disposals(
        spec_process_requests(v, reqs),
        spec_validations_of(reqs),
    )
}

/// Applies one edit request to the grid store: creation overwrites the cell
/// (clearing it first, so the previous visual is handed back for disposal),
/// removal clears it, and exactly one validation request is enqueued. The
/// processor checks no legality beyond the defensive bounds check: it
/// succeeds for every in-bounds coordinate.
pub fn process_edit_request(
    grid: &mut LevelGrid,
    req: &EditRequest,
    queue: &mut Vec<ValidationRequested>,
    disposals: &mut Vec<VisualHandle>,
) -> (r: Result<(), GridError>)
    ensures
        pos_in_bounds(spec_request_position(*req)) ==> {
            &&& r == Ok::<(), GridError>(())
            &&& final(grid)@ == spec_apply_request(old(grid)@, *req)
            &&& final(queue)@ == old(queue)@.push(spec_validation_of(*req))
            &&& final(disposals)@ == old(disposals)@ + spec_request_disposals(old(grid)@, *req)
        },
        !pos_in_bounds(spec_request_position(*req)) ==> {
            &&& r == Err::<(), GridError>(GridError::OutOfBounds)
            &&& final(grid)@ == old(grid)@
            &&& final(queue)@ == old(queue)@
            &&& final(disposals)@ == old(disposals)@
        },
{
    proof {
        use_type_invariant(&*grid);
    }
    let ghost v0 = grid@;
    match req {
        EditRequest::CreateTile { grid_position, tile_id, behaviour, visual } => {
            match grid.clear_tile(*grid_position) {
                Ok(previous) => {
                    if let Some(handle) = previous {
                        disposals.push(handle);
                    }
                    let ghost v1 = grid@;
                    let _ = grid.set_tile(*grid_position, *tile_id, *behaviour, *visual);
                    queue.push(ValidationRequested {
                        grid_position: *grid_position,
                        validation_payload: ValidationPayload::AddedTile,
                    });
                    proof {
                        let x = grid_position.x as int;
                        let z = grid_position.z as int;
                        assert(v1 == v0.with_tile(x, z, LevelGridTile::spec_empty()));
                        assert(grid@ == v1.with_tile(x, z, (LevelGridTile {
                            tile_id: Some(*tile_id),
                            tile_entity: Some(*visual),
                            tile_behaviour: *behaviour,
                        })));
                        assert(grid@ =~= spec_apply_request(v0, *req));
                        assert(disposals@ =~= old(disposals)@ + spec_request_disposals(v0, *req));
                    }
                    Ok(())
                },
                Err(e) => Err(e),
            }
        },
        EditRequest::RemoveTile { grid_position } => {
            match grid.clear_tile(*grid_position) {
                Ok(previous) => {
                    if let Some(handle) = previous {
                        disposals.push(handle);
                    }
                    queue.push(ValidationRequested {
                        grid_position: *grid_position,
                        validation_payload: ValidationPayload::RemovedTile,
                    });
                    proof {
                        assert(disposals@ =~= old(disposals)@ + spec_request_disposals(v0, *req));
                    }
                    Ok(())
                },
                Err(e) => Err(e),
            }
        },
        EditRequest::CreateOccupant { grid_position, occupant_kind, visual } => {
            match grid.clear_occupant(*grid_position) {
                Ok(previous) => {
                    if let Some(handle) = previous {
                        disposals.push(handle);
                    }
                    let ghost v1 = grid@;
                    let _ = grid.set_occupant(*grid_position, *occupant_kind, *visual);
                    queue.push(ValidationRequested {
                        grid_position: *grid_position,
                        validation_payload: ValidationPayload::AddedOccupant,
                    });
                    proof {
                        let x = grid_position.x as int;
                        let z = grid_position.z as int;
                        assert(v1 == v0.with_hedgehog(x, z, LevelGridHedgehog::spec_empty()));
                        assert(grid@ == v1.with_hedgehog(x, z, (LevelGridHedgehog {
                            hedgehog_behaviour: EnumHedgehogOnGrid::HedgehogAlive,
                            hedgehog_entity: Some(*visual),
                            hedgehog_tile: Some(*occupant_kind),
                        })));
                        assert(grid@ =~= spec_apply_request(v0, *req));
                        assert(disposals@ =~= old(disposals)@ + spec_request_disposals(v0, *req));
                    }
                    Ok(())
                },
                Err(e) => Err(e),
            }
        },
        EditRequest::RemoveOccupant { grid_position } => {
            match grid.clear_occupant(*grid_position) {
                Ok(previous) => {
                    if let Some(handle) = previous {
                        disposals.push(handle);
                    }
                    queue.push(ValidationRequested {
                        grid_position: *grid_position,
                        validation_payload: ValidationPayload::RemovedOccupant,
                    });
                    proof {
                        assert(disposals@ =~= old(disposals)@ + spec_request_disposals(v0, *req));
                    }
                    Ok(())
                },
                Err(e) => Err(e),
            }
        },
    }
}

/// Drains the pending validation queue in FIFO order, cascading occupant
/// removals where an edit left an occupant without a floor beneath it, and
/// emits exactly one batched `EventLevelEdidted` notification.
pub fn validate_level_edition(
    grid: &mut LevelGrid,
    queue: &mut Vec<ValidationRequested>,
    disposals: &mut Vec<VisualHandle>,
) -> (note: EventLevelEdidted)
    requires
        forall|j: int|
            0 <= j < old(queue)@.len() ==> pos_in_bounds(
                (#[trigger] old(queue)@[j]).grid_position),
    ensures
        final(grid)@ == spec_drain(old(grid)@, old(queue)@),
        final(queue)@.len() == 0,
        final(disposals)@ == old(disposals)@ + spec_drain_disposals(old(grid)@, old(queue)@),
{
    let ghost v0 = grid@;
    let ghost q0 = queue@;
    proof {
        assert(q0.skip(0) =~= q0);
    }
    let queue_len = queue.len();
    let mut i: usize = 0;
    while i < queue_len
        invariant
            i <= queue_len,
            queue_len == q0.len(),
            queue@ == q0,
            forall|j: int| 0 <= j < q0.len() ==> pos_in_bounds((#[trigger] q0[j]).grid_position),
            spec_drain(v0, q0) == spec_drain(grid@, q0.skip(i as int)),
            old(disposals)@ + spec_drain_disposals(v0, q0) == disposals@ + spec_drain_disposals(
                grid@,
                q0.skip(i as int),
            ),
        decreases queue_len - i,
    {
        let ghost v_before = grid@;
        let ghost d_before = disposals@;
        let request = queue[i];
        let position = request.grid_position;
        match request.validation_payload {
            ValidationPayload::RemovedTile => {
                match grid.clear_occupant(position) {
                    Ok(previous) => {
                        if let Some(handle) = previous {
                            disposals.push(handle);
                        }
                    },
                    Err(_) => {},
                }
            },
            ValidationPayload::AddedTile => {
                match grid.tile_at(position) {
                    Ok(tile) => {
                        match tile.tile_behaviour {
                            EnumeTileBehaviour::TileBFloor => {},
                            _ => {
                                match grid.clear_occupant(position) {
                                    Ok(previous) => {
                                        if let Some(handle) = previous {
                                            disposals.push(handle);
                                        }
                                    },
                                    Err(_) => {},
                                }
                            },
                        }
                    },
                    Err(_) => {},
                }
            },
            ValidationPayload::AddedOccupant => {},
            ValidationPayload::RemovedOccupant => {},
        }
        proof {
            let r = q0[i as int];
            assert(q0.skip(i as int)[0] == r);
            assert(q0.skip(i as int).skip(1) =~= q0.skip(i as int + 1));
            assert(grid@ == spec_validate_one(v_before, r));
            assert(disposals@ =~= d_before + spec_validate_disposals(v_before, r));
            assert((d_before + spec_validate_disposals(v_before, r)) + spec_drain_disposals(
                grid@,
                q0.skip(i as int + 1),
            ) =~= d_before + (spec_validate_disposals(v_before, r) + spec_drain_disposals(
                grid@,
                q0.skip(i as int + 1),
            )));
        }
        i = i + 1;
    }
    proof {
        assert(q0.skip(queue_len as int) =~= Seq::<ValidationRequested>::empty());
        assert(spec_drain(grid@, q0.skip(queue_len as int)) == grid@);
        assert(disposals@ + spec_drain_disposals(grid@, q0.skip(queue_len as int)) =~= disposals@);
    }
    queue.clear();
    EventLevelEdidted
}

/// Runs one whole edit pass: every request is processed in order, then the
/// validation queue the requests raised is drained in the same order, and the
/// single batched notification is returned. Coordinates are assumed
/// pre-clamped by the collaborator that produced them.
pub fn apply_edit_pass(
    grid: &mut LevelGrid,
    requests: &Vec<EditRequest>,
    disposals: &mut Vec<VisualHandle>,
) -> (note: EventLevelEdidted)
    requires
        forall|j: int|
            0 <= j < requests@.len() ==> pos_in_bounds(spec_request_position(
                #[trigger] requests@[j])),
    ensures
        final(grid)@ == spec_edit_pass(old(grid)@, requests@),
        final(disposals)@ == old(disposals)@ + spec_pass_disposals(old(grid)@, requests@),
        old(grid)@.inv_occupancy() && spec_occupant_requests_legit(old(grid)@, requests@)
            ==> final(grid)@.inv_occupancy(),
        old(grid)@.inv_reference() && spec_tile_requests_real(requests@)
            ==> final(grid)@.inv_reference(),
{
    proof {
        use_type_invariant(&*grid);
    }
    let ghost v0 = grid@;
    let ghost rs = requests@;
    let mut queue: Vec<ValidationRequested> = Vec::new();
    proof {
        assert(rs.skip(0) =~= rs);
        assert(spec_validations_of(rs.take(0)) =~= Seq::<ValidationRequested>::empty());
    }
    let n = requests.len();
    let mut i: usize = 0;
    while i < n
        invariant
            i <= n,
            n == rs.len(),
            requests@ == rs,
            forall|j: int|
                0 <= j < rs.len() ==> pos_in_bounds(spec_request_position(#[trigger] rs[j])),
            queue@ == spec_validations_of(rs.take(i as int)),
            spec_process_requests(v0, rs) == spec_process_requests(grid@, rs.skip(i as int)),
            old(disposals)@ + spec_process_disposals(v0, rs) == disposals@
                + spec_process_disposals(grid@, rs.skip(i as int)),
        decreases n - i,
    {
        let ghost v_before = grid@;
        let ghost d_before = disposals@;
        let request = requests[i];
        let _ = process_edit_request(grid, &request, &mut queue, disposals);
        proof {
            let r = rs[i as int];
            assert(rs.skip(i as int)[0] == r);
            assert(rs.skip(i as int).skip(1) =~= rs.skip(i as int + 1));
            assert(rs.take(i as int).push(r) =~= rs.take(i as int + 1));
            assert(spec_validations_of(rs.take(i as int)).push(spec_validation_of(r))
                =~= spec_validations_of(rs.take(i as int + 1)));
            assert((d_before + spec_request_disposals(v_before, r)) + spec_process_disposals(
                grid@,
                rs.skip(i as int + 1),
            ) =~= d_before + (spec_request_disposals(v_before, r) + spec_process_disposals(
                grid@,
                rs.skip(i as int + 1),
            )));
        }
        i = i + 1;
    }
    proof {
        assert(rs.skip(n as int) =~= Seq::<EditRequest>::empty());
        assert(rs.take(n as int) =~= rs);
        assert(spec_process_requests(grid@, rs.skip(n as int)) == grid@);
        assert(disposals@ + spec_process_disposals(grid@, rs.skip(n as int)) =~= disposals@);
        assert forall|j: int|
            0 <= j < queue@.len() implies pos_in_bounds(
            (#[trigger] queue@[j]).grid_position) by {
            assert(queue@[j] == spec_validation_of(rs[j]));
        }
    }
    let ghost mid = grid@;
    let note = validate_level_edition(grid, &mut queue, disposals);
    proof {
        assert((old(disposals)@ + spec_process_disposals(v0, rs)) + spec_drain_disposals(
            mid,
            spec_validations_of(rs),
        ) =~= old(disposals)@ + spec_pass_disposals(v0, rs));
        if v0.inv_occupancy() && spec_occupant_requests_legit(v0, rs) {
            lemma_edit_pass_preserves_occupancy(v0, rs);
        }
        if v0.inv_reference() && spec_tile_requests_real(rs) {
            lemma_edit_pass_preserves_reference(v0, rs);
        }
    }
    note
}

/// Whether an occupant may be placed at `p`: the cell must hold a floor tile
/// and no occupant yet. The occupant-paint preview only ever settles on such
/// cells, so occupant-creation requests target them.
pub open spec fn spec_can_place_hedgehog(v: LevelGridView, p: GridPosition) -> bool {
    &&& pos_in_bounds(p)
    &&& v.tile_at(p.x as int, p.z as int).tile_behaviour is TileBFloor
    &&& !v.occupant_present(p.x as int, p.z as int)
}

/// Decides whether an occupant may be placed at `p` on the current grid.
pub fn can_place_hedgehog(grid: &LevelGrid, p: GridPosition) -> (b: bool)
    ensures
        b == spec_can_place_hedgehog(grid@, p),
{
    match grid.tile_at(p) {
        Err(_) => false,
        Ok(tile) => {
            match tile.tile_behaviour {
                EnumeTileBehaviour::TileBFloor => {
                    match grid.hedgehog_at(p) {
                        Err(_) => false,
                        Ok(hedgehog) => {
                            match hedgehog.hedgehog_behaviour {
                                EnumHedgehogOnGrid::Empty => true,
                                EnumHedgehogOnGrid::HedgehogAlive => false,
                            }
                        },
                    }
                },
                _ => false,
            }
        },
    }
}

/// A coordinate where the occupancy invariant is broken: an occupant stands
/// on something other than a floor tile.
pub open spec fn spec_violation(v: LevelGridView, x: int, z: int) -> bool {
    v.occupant_present(x, z) && !(v.tile_at(x, z).tile_behaviour is TileBFloor)
}

/// Whether the queue holds a tile-payload validation request at `p`.
pub open spec fn spec_has_tile_validation(q: Seq<ValidationRequested>, p: GridPosition) -> bool {
    exists|j: int|
        0 <= j < q.len() && (#[trigger] q[j]).grid_position == p && (
        q[j].validation_payload is AddedTile || q[j].validation_payload is RemovedTile)
}

/// Every occupant-creation request of the sequence lands on what is a floor
/// tile at its own processing point. This is what the occupant-paint filter
/// (`can_place_hedgehog`) guarantees of the requests it lets through.
pub open spec fn spec_occupant_requests_legit(v: LevelGridView, reqs: Seq<EditRequest>) -> bool {
    forall|i: int|
        0 <= i < reqs.len() && (#[trigger] reqs[i]) is CreateOccupant
            ==> spec_process_requests(v, reqs.take(i)).tile_at(
            spec_request_position(reqs[i]).x as int,
            spec_request_position(reqs[i]).z as int,
        ).tile_behaviour is TileBFloor
}

/// Applying one in-bounds request keeps the grid well-formed.
proof fn lemma_apply_request_wf(v: LevelGridView, req: EditRequest)
    requires
        v.wf(),
        pos_in_bounds(spec_request_position(req)),
    ensures
        spec_apply_request(v, req).wf(),
{
}

/// Validating one in-bounds request keeps the grid well-formed and never
/// touches a tile cell.
proof fn lemma_validate_one_frame(v: LevelGridView, r: ValidationRequested)
    requires
        v.wf(),
        pos_in_bounds(r.grid_position),
    ensures
        spec_validate_one(v, r).wf(),
        spec_validate_one(v, r).tiles == v.tiles,
{
}

/// Draining a queue of in-bounds validation requests restores the occupancy
/// invariant at every coordinate whose violation is covered by a tile-payload
/// request in the queue.
proof fn lemma_drain_enforces(v: LevelGridView, q: Seq<ValidationRequested>)
    requires
        v.wf(),
        forall|j: int| 0 <= j < q.len() ==> pos_in_bounds((#[trigger] q[j]).grid_position),
        forall|x: int, z: int|
            coord_in_range(x, z) && #[trigger] spec_violation(v, x, z)
                ==> spec_has_tile_validation(q, (GridPosition { x: x as usize, z: z as usize })),
    ensures
        spec_drain(v, q).inv_occupancy(),
    decreases q.len(),
{
    if q.len() == 0 {
        assert forall|x: int, z: int|
            coord_in_range(x, z) && #[trigger] spec_drain(v, q).occupant_present(x, z) implies
            spec_drain(v, q).tile_at(x, z).tile_behaviour is TileBFloor by {
            if !(v.tile_at(x, z).tile_behaviour is TileBFloor) {
                assert(spec_violation(v, x, z));
            }
        }
    } else {
        let r = q[0];
        let rest = q.skip(1);
        let v1 = spec_validate_one(v, r);
        lemma_validate_one_frame(v, r);
        assert forall|j: int| 0 <= j < rest.len() implies pos_in_bounds(
            (#[trigger] rest[j]).grid_position) by {
            assert(rest[j] == q[j + 1]);
        }
        assert forall|x: int, z: int|
            coord_in_range(x, z) && #[trigger] spec_violation(v1, x, z) implies
            spec_has_tile_validation(rest, (GridPosition { x: x as usize, z: z as usize })) by {
            let p = GridPosition { x: x as usize, z: z as usize };
            assert(spec_violation(v, x, z));
            let j = choose|j: int|
                0 <= j < q.len() && (#[trigger] q[j]).grid_position == p && (
                q[j].validation_payload is AddedTile
                    || q[j].validation_payload is RemovedTile);
            if j == 0 {
                assert(spec_cascade_clears(v, r));
                assert(!v1.occupant_present(x, z));
                assert(false);
            } else {
                assert(rest[j - 1] == q[j]);
            }
        }
        lemma_drain_enforces(v1, rest);
    }
}

/// After processing a request sequence, every broken coordinate either was
/// broken already or is covered by a tile-payload validation request the
/// sequence raised.
proof fn lemma_process_covers(v: LevelGridView, reqs: Seq<EditRequest>)
    requires
        v.wf(),
        forall|j: int|
            0 <= j < reqs.len() ==> pos_in_bounds(spec_request_position(#[trigger] reqs[j])),
        spec_occupant_requests_legit(v, reqs),
    ensures
        spec_process_requests(v, reqs).wf(),
        forall|x: int, z: int|
            coord_in_range(x, z) && #[trigger] spec_violation(spec_process_requests(v, reqs), x,
                z) ==> spec_has_tile_validation(spec_validations_of(reqs),
                (GridPosition { x: x as usize, z: z as usize })) || spec_violation(v, x, z),
    decreases reqs.len(),
{
    if reqs.len() == 0 {
    } else {
        let r0 = reqs[0];
        let rest = reqs.skip(1);
        let v1 = spec_apply_request(v, r0);
        lemma_apply_request_wf(v, r0);
        assert forall|j: int| 0 <= j < rest.len() implies pos_in_bounds(spec_request_position(
            #[trigger] rest[j])) by {
            assert(rest[j] == reqs[j + 1]);
        }
        assert(reqs.take(0) =~= Seq::<EditRequest>::empty());
        assert forall|i: int| 0 <= i < rest.len() && (#[trigger] rest[i]) is CreateOccupant
            implies spec_process_requests(v1, rest.take(i)).tile_at(
            spec_request_position(rest[i]).x as int,
            spec_request_position(rest[i]).z as int,
        ).tile_behaviour is TileBFloor by {
            assert(rest[i] == reqs[i + 1]);
            let prefix = reqs.take(i + 1);
            assert(prefix.len() != 0);
            assert(prefix[0] == r0);
            assert(prefix.skip(1) =~= rest.take(i));
            assert(spec_process_requests(v, prefix) == spec_process_requests(v1, rest.take(i)));
        }
        lemma_process_covers(v1, rest);
        let after = spec_process_requests(v, reqs);
        assert(after == spec_process_requests(v1, rest));
        assert forall|x: int, z: int|
            coord_in_range(x, z) && #[trigger] spec_violation(after, x, z) implies
            spec_has_tile_validation(spec_validations_of(reqs),
                (GridPosition { x: x as usize, z: z as usize })) || spec_violation(v, x, z) by {
            let p = GridPosition { x: x as usize, z: z as usize };
            let vals = spec_validations_of(reqs);
            let vals_rest = spec_validations_of(rest);
            if spec_has_tile_validation(vals_rest, p) {
                let j = choose|j: int|
                    0 <= j < vals_rest.len() && (#[trigger] vals_rest[j]).grid_position == p && (
                    vals_rest[j].validation_payload is AddedTile
                        || vals_rest[j].validation_payload is RemovedTile);
                assert(vals[j + 1] == vals_rest[j]);
                assert(spec_has_tile_validation(vals, p));
            } else if spec_violation(v1, x, z) {
                let p0 = spec_request_position(r0);
                match r0 {
                    EditRequest::CreateTile { .. } => {
                        if p0 == p {
                            assert(vals[0].grid_position == p);
                            assert(vals[0].validation_payload is AddedTile);
                            assert(spec_has_tile_validation(vals, p));
                        } else {
                            assert(spec_violation(v, x, z));
                        }
                    },
                    EditRequest::RemoveTile { .. } => {
                        if p0 == p {
                            assert(vals[0].grid_position == p);
                            assert(vals[0].validation_payload is RemovedTile);
                            assert(spec_has_tile_validation(vals, p));
                        } else {
                            assert(spec_violation(v, x, z));
                        }
                    },
                    EditRequest::CreateOccupant { .. } => {
                        if p0 == p {
                            assert(v.tile_at(x, z).tile_behaviour is TileBFloor);
                            assert(false);
                        } else {
                            assert(spec_violation(v, x, z));
                        }
                    },
                    EditRequest::RemoveOccupant { .. } => {
                        if p0 == p {
                            assert(!v1.occupant_present(x, z));
                            assert(false);
                        } else {
                            assert(spec_violation(v, x, z));
                        }
                    },
                }
            }
        }
    }
}

/// The occupancy invariant holds after every processed edit pass: whatever
/// in-bounds requests the pass carries, as long as occupant creations land on
/// floor tiles at their processing point (which the occupant-paint filter
/// guarantees), the validation drain restores the invariant everywhere.
pub proof fn lemma_edit_pass_preserves_occupancy(v: LevelGridView, reqs: Seq<EditRequest>)
    requires
        v.wf(),
        v.inv_occupancy(),
        forall|j: int|
            0 <= j < reqs.len() ==> pos_in_bounds(spec_request_position(#[trigger] reqs[j])),
        spec_occupant_requests_legit(v, reqs),
    ensures
        spec_edit_pass(v, reqs).inv_occupancy(),
{
    lemma_process_covers(v, reqs);
    let mid = spec_process_requests(v, reqs);
    let vals = spec_validations_of(reqs);
    assert forall|j: int| 0 <= j < vals.len() implies pos_in_bounds(
        (#[trigger] vals[j]).grid_position) by {
        assert(vals[j] == spec_validation_of(reqs[j]));
    }
    assert forall|x: int, z: int|
        coord_in_range(x, z) && #[trigger] spec_violation(mid, x, z) implies
        spec_has_tile_validation(vals, (GridPosition { x: x as usize, z: z as usize })) by {
        if spec_violation(v, x, z) {
            assert(v.occupant_present(x, z));
            assert(false);
        }
    }
    lemma_drain_enforces(mid, vals);
}

/// Every tile-creation request of the sequence carries a real tile: the
/// palette never hands out the `Empty` behaviour.
pub open spec fn spec_tile_requests_real(reqs: Seq<EditRequest>) -> bool {
    forall|i: int|
        0 <= i < reqs.len() ==> ((#[trigger] reqs[i]) matches EditRequest::CreateTile {
            behaviour,
            ..
        } ==> !(behaviour is Empty))
}

/// Applying one in-bounds request that carries a real tile keeps the
/// reference invariant: every written cell pairs its visual with its
/// contents.
proof fn lemma_apply_request_reference(v: LevelGridView, req: EditRequest)
    requires
        v.wf(),
        pos_in_bounds(spec_request_position(req)),
        v.inv_reference(),
        req matches EditRequest::CreateTile { behaviour, .. } ==> !(behaviour is Empty),
    ensures
        spec_apply_request(v, req).inv_reference(),
{
    let va = spec_apply_request(v, req);
    assert forall|x: int, z: int| coord_in_range(x, z) implies #[trigger] va.tile_ref_consistent(
        x,
        z,
    ) by {
        assert(v.tile_ref_consistent(x, z));
    }
    assert forall|x: int, z: int|
        coord_in_range(x, z) implies #[trigger] va.hedgehog_ref_consistent(x, z) by {
        assert(v.hedgehog_ref_consistent(x, z));
    }
}

/// Validating one in-bounds request keeps the reference invariant: a cascade
/// writes only the absence state.
proof fn lemma_validate_one_reference(v: LevelGridView, r: ValidationRequested)
    requires
        v.wf(),
        pos_in_bounds(r.grid_position),
        v.inv_reference(),
    ensures
        spec_validate_one(v, r).inv_reference(),
{
    let va = spec_validate_one(v, r);
    assert forall|x: int, z: int| coord_in_range(x, z) implies #[trigger] va.tile_ref_consistent(
        x,
        z,
    ) by {
        assert(v.tile_ref_consistent(x, z));
    }
    assert forall|x: int, z: int|
        coord_in_range(x, z) implies #[trigger] va.hedgehog_ref_consistent(x, z) by {
        assert(v.hedgehog_ref_consistent(x, z));
    }
}

/// Processing a request sequence keeps the reference invariant.
proof fn lemma_process_requests_reference(v: LevelGridView, reqs: Seq<EditRequest>)
    requires
        v.wf(),
        v.inv_reference(),
        forall|j: int|
            0 <= j < reqs.len() ==> pos_in_bounds(spec_request_position(#[trigger] reqs[j])),
        spec_tile_requests_real(reqs),
    ensures
        spec_process_requests(v, reqs).wf(),
        spec_process_requests(v, reqs).inv_reference(),
    decreases reqs.len(),
{
    if reqs.len() == 0 {
    } else {
        let r0 = reqs[0];
        let rest = reqs.skip(1);
        let v1 = spec_apply_request(v, r0);
        lemma_apply_request_wf(v, r0);
        lemma_apply_request_reference(v, r0);
        assert forall|j: int| 0 <= j < rest.len() implies pos_in_bounds(spec_request_position(
            #[trigger] rest[j])) by {
            assert(rest[j] == reqs[j + 1]);
        }
        assert forall|i: int|
            0 <= i < rest.len() implies ((#[trigger] rest[i]) matches EditRequest::CreateTile {
            behaviour,
            ..
        } ==> !(behaviour is Empty)) by {
            assert(rest[i] == reqs[i + 1]);
        }
        lemma_process_requests_reference(v1, rest);
    }
}

/// Draining a validation queue keeps the reference invariant.
proof fn lemma_drain_reference(v: LevelGridView, q: Seq<ValidationRequested>)
    requires
        v.wf(),
        v.inv_reference(),
        forall|j: int| 0 <= j < q.len() ==> pos_in_bounds((#[trigger] q[j]).grid_position),
    ensures
        spec_drain(v, q).inv_reference(),
    decreases q.len(),
{
    if q.len() == 0 {
    } else {
        let r = q[0];
        let rest = q.skip(1);
        let v1 = spec_validate_one(v, r);
        lemma_validate_one_frame(v, r);
        lemma_validate_one_reference(v, r);
        assert forall|j: int| 0 <= j < rest.len() implies pos_in_bounds(
            (#[trigger] rest[j]).grid_position) by {
            assert(rest[j] == q[j + 1]);
        }
        lemma_drain_reference(v1, rest);
    }
}

/// The reference invariant holds after every processed edit pass whose
/// tile creations carry real tiles, as every request built from the palette
/// does.
pub proof fn lemma_edit_pass_preserves_reference(v: LevelGridView, reqs: Seq<EditRequest>)
    requires
        v.wf(),
        v.inv_reference(),
        forall|j: int|
            0 <= j < reqs.len() ==> pos_in_bounds(spec_request_position(#[trigger] reqs[j])),
        spec_tile_requests_real(reqs),
    ensures
        spec_edit_pass(v, reqs).inv_reference(),
{
    lemma_process_requests_reference(v, reqs);
    let mid = spec_process_requests(v, reqs);
    let vals = spec_validations_of(reqs);
    assert forall|j: int| 0 <= j < vals.len() implies pos_in_bounds(
        (#[trigger] vals[j]).grid_position) by {
        assert(vals[j] == spec_validation_of(reqs[j]));
    }
    lemma_drain_reference(mid, vals);
}

/// A pass with a single request processes it and validates its follow-up.
proof fn lemma_singleton_pass(v: LevelGridView, r: EditRequest)
    ensures
        spec_edit_pass(v, seq![r]) == spec_validate_one(spec_apply_request(v, r),
            spec_validation_of(r)),
{
    let s = seq![r];
    assert(s.len() == 1);
    assert(s[0] == r);
    assert(s.skip(1) =~= Seq::<EditRequest>::empty());
    let mid = spec_apply_request(v, r);
    assert(spec_process_requests(v, s) == spec_process_requests(mid, s.skip(1)));
    assert(spec_process_requests(mid, Seq::<EditRequest>::empty()) == mid);
    let vals = spec_validations_of(s);
    assert(vals.len() == 1);
    assert(vals[0] == spec_validation_of(r));
    assert(vals.skip(1) =~= Seq::<ValidationRequested>::empty());
    assert(spec_drain(mid, vals) == spec_drain(spec_validate_one(mid, vals[0]), vals.skip(1)));
    assert(spec_drain(spec_validate_one(mid, vals[0]), Seq::<ValidationRequested>::empty())
        == spec_validate_one(mid, vals[0]));
}

/// Removing a tile twice in a row leaves the grid exactly as removing it
/// once: the second pass clears cells that are already clear.
pub proof fn lemma_remove_tile_idempotent(v: LevelGridView, c: GridPosition)
    requires
        v.wf(),
        pos_in_bounds(c),
    ensures
        spec_edit_pass(spec_edit_pass(v, seq![EditRequest::RemoveTile { grid_position: c }]),
            seq![EditRequest::RemoveTile { grid_position: c }]) == spec_edit_pass(v,
            seq![EditRequest::RemoveTile { grid_position: c }]),
{
    let r = EditRequest::RemoveTile { grid_position: c };
    let s = seq![r];
    let x = c.x as int;
    let z = c.z as int;
    lemma_singleton_pass(v, r);
    let g1 = spec_edit_pass(v, s);
    lemma_singleton_pass(g1, r);
    assert(g1 == v.with_tile(x, z, LevelGridTile::spec_empty()).with_hedgehog(x, z,
        LevelGridHedgehog::spec_empty()));
    let g2 = spec_edit_pass(g1, s);
    assert(g2 == g1.with_tile(x, z, LevelGridTile::spec_empty()).with_hedgehog(x, z,
        LevelGridHedgehog::spec_empty()));
    assert(g2 =~= g1);
}

/// Creating an obstacle tile over a cell whose floor tile carries an
/// occupant removes the occupant in the validation pass.
pub proof fn lemma_cascade_on_obstacle(
    v: LevelGridView,
    c: GridPosition,
    tile_id: EnumTilesId,
    visual: VisualHandle,
)
    requires
        v.wf(),
        pos_in_bounds(c),
        v.occupant_present(c.x as int, c.z as int),
        v.tile_at(c.x as int, c.z as int).tile_behaviour is TileBFloor,
    ensures
        !spec_edit_pass(v, seq![EditRequest::CreateTile {
            grid_position: c,
            tile_id,
            behaviour: EnumeTileBehaviour::TileBObstacle,
            visual,
        }]).occupant_present(c.x as int, c.z as int),
{
    let r = EditRequest::CreateTile {
        grid_position: c,
        tile_id,
        behaviour: EnumeTileBehaviour::TileBObstacle,
        visual,
    };
    let s = seq![r];
    let x = c.x as int;
    let z = c.z as int;
    lemma_singleton_pass(v, r);
    let mid = spec_apply_request(v, r);
    assert(!(mid.tile_at(x, z).tile_behaviour is TileBFloor));
    assert(spec_edit_pass(v, s) == mid.with_hedgehog(x, z, LevelGridHedgehog::spec_empty()));
}

/// Repaving a floor cell that carries an occupant with another floor tile
/// leaves the occupant exactly as it was.
pub proof fn lemma_no_cascade_on_floor_repave(
    v: LevelGridView,
    c: GridPosition,
    tile_id: EnumTilesId,
    visual: VisualHandle,
)
    requires
        v.wf(),
        pos_in_bounds(c),
        v.occupant_present(c.x as int, c.z as int),
        v.tile_at(c.x as int, c.z as int).tile_behaviour is TileBFloor,
    ensures
        spec_edit_pass(v, seq![EditRequest::CreateTile {
            grid_position: c,
            tile_id,
            behaviour: EnumeTileBehaviour::TileBFloor,
            visual,
        }]).occupant_present(c.x as int, c.z as int),
        spec_edit_pass(v, seq![EditRequest::CreateTile {
            grid_position: c,
            tile_id,
            behaviour: EnumeTileBehaviour::TileBFloor,
            visual,
        }]).hedgehog_at(c.x as int, c.z as int) == v.hedgehog_at(c.x as int, c.z as int),
{
    let r = EditRequest::CreateTile {
        grid_position: c,
        tile_id,
        behaviour: EnumeTileBehaviour::TileBFloor,
        visual,
    };
    let s = seq![r];
    let x = c.x as int;
    let z = c.z as int;
    lemma_singleton_pass(v, r);
    let mid = spec_apply_request(v, r);
    assert(mid.tile_at(x, z).tile_behaviour is TileBFloor);
    assert(spec_edit_pass(v, s) == mid);
    assert(mid.hedgehog_at(x, z) == v.hedgehog_at(x, z));
}

} // verus!
