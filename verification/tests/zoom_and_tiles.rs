use hedgegrid::tiles::{tile_behaviour_of, EnumTilesId, EnumeTileBehaviour};
use hedgegrid::zoom::ZoomLevel;

#[test]
fn zoom_values_are_the_projection_scales() {
    assert_eq!(ZoomLevel::REALLYSMALL.value(), 6);
    assert_eq!(ZoomLevel::SMALL.value(), 10);
    assert_eq!(ZoomLevel::NORMAL.value(), 12);
    assert_eq!(ZoomLevel::BIG.value(), 15);
    assert_eq!(ZoomLevel::REALLYBIG.value(), 20);
}

#[test]
fn unzoom_steps_out_and_saturates() {
    assert_eq!(ZoomLevel::REALLYSMALL.unzoom(), Some(ZoomLevel::SMALL));
    assert_eq!(ZoomLevel::SMALL.unzoom(), Some(ZoomLevel::NORMAL));
    assert_eq!(ZoomLevel::NORMAL.unzoom(), Some(ZoomLevel::BIG));
    assert_eq!(ZoomLevel::BIG.unzoom(), Some(ZoomLevel::REALLYBIG));
    assert_eq!(ZoomLevel::REALLYBIG.unzoom(), Some(ZoomLevel::REALLYBIG));
}

#[test]
fn zoom_steps_in_and_saturates() {
    assert_eq!(ZoomLevel::REALLYBIG.zoom(), Some(ZoomLevel::BIG));
    assert_eq!(ZoomLevel::BIG.zoom(), Some(ZoomLevel::NORMAL));
    assert_eq!(ZoomLevel::NORMAL.zoom(), Some(ZoomLevel::SMALL));
    assert_eq!(ZoomLevel::SMALL.zoom(), Some(ZoomLevel::REALLYSMALL));
    assert_eq!(ZoomLevel::REALLYSMALL.zoom(), Some(ZoomLevel::REALLYSMALL));
}

#[test]
fn zoom_level_from_scale() {
    assert_eq!(ZoomLevel::get_from_i32(6), Some(ZoomLevel::REALLYSMALL));
    assert_eq!(ZoomLevel::get_from_i32(10), Some(ZoomLevel::SMALL));
    assert_eq!(ZoomLevel::get_from_i32(12), Some(ZoomLevel::NORMAL));
    assert_eq!(ZoomLevel::get_from_i32(15), Some(ZoomLevel::BIG));
    assert_eq!(ZoomLevel::get_from_i32(20), Some(ZoomLevel::REALLYBIG));
    assert_eq!(ZoomLevel::get_from_i32(0), None);
    assert_eq!(ZoomLevel::get_from_i32(13), None);
    assert_eq!(ZoomLevel::get_from_i32(-6), None);
}

#[test]
fn tile_palette_behaviours() {
    assert_eq!(tile_behaviour_of(EnumTilesId::TileIdFloor), EnumeTileBehaviour::TileBFloor);
    assert_eq!(tile_behaviour_of(EnumTilesId::TileIdFire), EnumeTileBehaviour::TileBFire);
    assert_eq!(tile_behaviour_of(EnumTilesId::TileIdWater), EnumeTileBehaviour::TileBWater);
    assert_eq!(tile_behaviour_of(EnumTilesId::TileIdExit), EnumeTileBehaviour::TileBExit);
    assert_eq!(tile_behaviour_of(EnumTilesId::TileIdArmoire), EnumeTileBehaviour::TileBObstacle);
    assert_eq!(tile_behaviour_of(EnumTilesId::TileIdTable1), EnumeTileBehaviour::TileBObstacle);
    assert_eq!(tile_behaviour_of(EnumTilesId::TileIdTable2), EnumeTileBehaviour::TileBObstacle);
    assert_eq!(
        tile_behaviour_of(EnumTilesId::TileIdWallCorner),
        EnumeTileBehaviour::TileBObstacle
    );
    assert_eq!(tile_behaviour_of(EnumTilesId::TileIdWall), EnumeTileBehaviour::TileBObstacle);
    assert_eq!(tile_behaviour_of(EnumTilesId::TileIdDesk), EnumeTileBehaviour::TileBObstacle);
}
