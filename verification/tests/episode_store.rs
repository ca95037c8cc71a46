use hedgegrid::episode::{
    create_level_on_curr_episode_at_position, create_new_episode, run_episode,
    run_origin_level_on_curr_episode, Episode, EpisodeGrid, ResCurEpisode,
    DEFAULT_EPISODE_START_LOCATION_X, DEFAULT_EPISODE_START_LOCATION_Y,
    EPISODE_DEFAULT_HORIZONTAL_SIZE,
};
use hedgegrid::grid::LevelGrid;
use hedgegrid::level::{Level, ResCurrentLevel};

#[test]
fn new_episode_is_registered_empty() {
    let mut episodes: Vec<Episode> = Vec::new();
    let uid = create_new_episode(&mut episodes, String::from("construct"),
        String::from("assets/episodes_construct/construct.ron"));
    assert_eq!((uid >> 76) & 0xf, 4);
    assert_eq!(episodes.len(), 1);
    assert_eq!(episodes[0].uid.uid, uid);
    assert_eq!(episodes[0].info.level_name, "construct");
    assert!(episodes[0].grid.episode_grid.iter().all(|cell| cell.is_none()));
}

#[test]
fn level_is_registered_at_the_requested_cell() {
    let mut levels: Vec<Level> = Vec::new();
    let mut grid = EpisodeGrid::new();
    let uid = create_level_on_curr_episode_at_position(0, 5, &mut levels, &mut grid);
    assert_eq!(levels.len(), 1);
    assert_eq!(levels[0].uid.uid, Some(uid));
    assert_eq!(grid.episode_grid[5], Some(uid));
    assert!(grid.episode_grid[..5].iter().all(|cell| cell.is_none()));
}

#[test]
fn run_episode_makes_it_current() {
    let mut episodes: Vec<Episode> = Vec::new();
    let uid = create_new_episode(&mut episodes, String::from("one"), String::from("one.ron"));
    let mut current = ResCurEpisode { episode_entity: None, episode_uid: None };
    let mut current_grid = EpisodeGrid::new();
    run_episode(&mut current, &mut current_grid, 0, &episodes[0].uid, &episodes[0].grid);
    assert_eq!(current.episode_uid, Some(uid));
    assert_eq!(current.episode_entity, Some(0));
    assert!(current_grid.episode_grid.iter().all(|cell| cell.is_none()));
}

#[test]
fn origin_level_of_the_current_episode_is_entered() {
    let mut levels: Vec<Level> = Vec::new();
    let mut episode_grid = EpisodeGrid::new();
    let uid = create_level_on_curr_episode_at_position(
        DEFAULT_EPISODE_START_LOCATION_X,
        DEFAULT_EPISODE_START_LOCATION_Y,
        &mut levels,
        &mut episode_grid,
    );
    let origin = DEFAULT_EPISODE_START_LOCATION_X * EPISODE_DEFAULT_HORIZONTAL_SIZE
        + DEFAULT_EPISODE_START_LOCATION_Y;
    assert_eq!(episode_grid.episode_grid[origin], Some(uid));
    let mut current = ResCurrentLevel { level_uid: None, level_entity: None };
    let mut working = LevelGrid::new();
    run_origin_level_on_curr_episode(&episode_grid, &mut current, &mut working, &levels);
    assert_eq!(current.level_uid, Some(uid));
    assert_eq!(current.level_entity, Some(0));
}

#[test]
fn origin_run_without_a_level_changes_nothing() {
    let levels: Vec<Level> = Vec::new();
    let episode_grid = EpisodeGrid::new();
    let mut current = ResCurrentLevel { level_uid: None, level_entity: None };
    let mut working = LevelGrid::new();
    run_origin_level_on_curr_episode(&episode_grid, &mut current, &mut working, &levels);
    assert_eq!(current.level_uid, None);
    assert_eq!(current.level_entity, None);
}
