use tileworld::error::LevelError;
use tileworld::json::Json;
use tileworld::level::{level_transition, setup_levels, CurrentLevel, LevelData, Levels};
use tileworld::loader::{update, JsonFile, LoadStatus};
use tileworld::phase::{Effect, Event, Session};
use tileworld::GameState;

const MANIFEST: &str = r#"[
    {"name": "one", "map": "levels/one.json", "next": "two"},
    {"name": "two", "map": "levels/two.json", "next": null},
    {"name": "lost", "map": "levels/lost.json", "next": "nowhere"}
]"#;

fn manifest(text: &str) -> JsonFile {
    JsonFile::load(text.as_bytes()).unwrap()
}

fn level(name: &str, map: &str, next: Option<&str>) -> LevelData {
    LevelData { name: String::from(name), map: String::from(map), next: next.map(String::from) }
}

fn fresh() -> Session {
    let (session, effect) = Session::start();
    assert_eq!(effect, Effect::LoadAssets);
    session
}

fn playing(text: &str) -> Session {
    let (session, effect) = fresh().step(Event::AssetsLoaded(manifest(text)));
    assert_eq!(effect, Effect::SpawnLevel);
    assert_eq!(session.state(), GameState::Playing);
    session
}

#[test]
fn a_session_starts_loading() {
    let session = fresh();
    assert_eq!(session.state(), GameState::Loading);
    assert_eq!(GameState::default(), GameState::Loading);
    assert_eq!(session.current(), None);
    assert_eq!(session.failure(), None);
    assert!(session.levels().0.is_empty());
}

#[test]
fn loading_goes_on_while_assets_are_pending() {
    let (session, effect) = fresh().step(Event::AssetsPending);
    assert_eq!((session.state(), effect), (GameState::Loading, Effect::Nothing));
    let (session, effect) = session.step(Event::Tick);
    assert_eq!((session.state(), effect), (GameState::Loading, Effect::Nothing));
    let (session, effect) = session.step(Event::TransitionRequested);
    assert_eq!((session.state(), effect), (GameState::Loading, Effect::Nothing));
}

#[test]
fn loaded_assets_start_the_first_level() {
    let session = playing(MANIFEST);
    assert_eq!(session.levels().0.len(), 3);
    assert_eq!(session.levels().0[0], level("one", "levels/one.json", Some("two")));
    assert_eq!(session.levels().0[1], level("two", "levels/two.json", None));
    assert_eq!(session.current(), Some(&CurrentLevel(level("one", "levels/one.json", Some("two")))));
    assert_eq!(session.failure(), None);
}

#[test]
fn a_request_ends_the_level() {
    let (session, effect) = playing(MANIFEST).step(Event::TransitionRequested);
    assert_eq!((session.state(), effect), (GameState::Transitioning, Effect::DespawnLevel));
    assert_eq!(session.current().unwrap().0.name, "one");
}

#[test]
fn playing_goes_on_through_ticks() {
    let (session, effect) = playing(MANIFEST).step(Event::Tick);
    assert_eq!((session.state(), effect), (GameState::Playing, Effect::Nothing));
    let (session, effect) = session.step(Event::AssetsFailed);
    assert_eq!((session.state(), effect), (GameState::Playing, Effect::Nothing));
}

#[test]
fn the_successor_is_played_on_the_next_tick() {
    let (session, _) = playing(MANIFEST).step(Event::TransitionRequested);
    let (session, effect) = session.step(Event::Tick);
    assert_eq!((session.state(), effect), (GameState::Playing, Effect::SpawnLevel));
    assert_eq!(session.current(), Some(&CurrentLevel(level("two", "levels/two.json", None))));
}

#[test]
fn the_end_of_the_chain_stays_in_transitioning() {
    let (session, _) = playing(MANIFEST).step(Event::TransitionRequested);
    let (session, _) = session.step(Event::Tick);
    let (session, _) = session.step(Event::TransitionRequested);
    assert_eq!(session.state(), GameState::Transitioning);
    let (session, effect) = session.step(Event::Tick);
    assert_eq!((session.state(), effect), (GameState::Transitioning, Effect::Nothing));
    let (session, effect) = session.step(Event::Tick);
    assert_eq!((session.state(), effect), (GameState::Transitioning, Effect::Nothing));
    assert_eq!(session.current().unwrap().0.name, "two");
}

#[test]
fn a_level_without_a_next_member_ends_the_chain() {
    let (session, _) = playing("[{\"name\": \"only\", \"map\": \"m\"}]").step(Event::TransitionRequested);
    let (session, effect) = session.step(Event::Tick);
    assert_eq!((session.state(), effect), (GameState::Transitioning, Effect::Nothing));
}

#[test]
fn a_chain_may_go_round() {
    let text = "[{\"name\": \"a\", \"map\": \"m\", \"next\": \"a\"}]";
    let (session, _) = playing(text).step(Event::TransitionRequested);
    let (session, effect) = session.step(Event::Tick);
    assert_eq!((session.state(), effect), (GameState::Playing, Effect::SpawnLevel));
    assert_eq!(session.current().unwrap().0.name, "a");
}

#[test]
fn a_successor_that_is_not_registered_fails_the_game() {
    let text = "[{\"name\": \"a\", \"map\": \"m\", \"next\": \"b\"}]";
    let (session, _) = playing(text).step(Event::TransitionRequested);
    let (session, effect) = session.step(Event::Tick);
    assert_eq!((session.state(), effect), (GameState::Failed, Effect::Nothing));
    assert_eq!(session.failure(), Some(LevelError::UnresolvedReference));
}

#[test]
fn a_failed_asset_fails_the_game() {
    let (session, effect) = fresh().step(Event::AssetsFailed);
    assert_eq!((session.state(), effect), (GameState::Failed, Effect::Nothing));
    assert_eq!(session.failure(), Some(LevelError::AssetLoadFailure));
    let (session, effect) = session.step(Event::AssetsLoaded(manifest(MANIFEST)));
    assert_eq!((session.state(), effect), (GameState::Failed, Effect::Nothing));
    assert_eq!(session.failure(), Some(LevelError::AssetLoadFailure));
}

#[test]
fn a_broken_manifest_fails_the_game() {
    for text in ["[]", "{}", "[{\"name\": \"a\"}]", "[{\"name\": \"a\", \"map\": \"m\", \"next\": 3}]"] {
        let (session, effect) = fresh().step(Event::AssetsLoaded(manifest(text)));
        assert_eq!((session.state(), effect), (GameState::Failed, Effect::Nothing));
        assert_eq!(session.failure(), Some(LevelError::MalformedDocument));
    }
}

#[test]
fn a_level_that_cannot_be_set_up_fails_the_game() {
    let (session, effect) = playing(MANIFEST).step(Event::LevelFailed(LevelError::UnsupportedFeature));
    assert_eq!((session.state(), effect), (GameState::Failed, Effect::DespawnLevel));
    assert_eq!(session.failure(), Some(LevelError::UnsupportedFeature));
}

#[test]
fn a_poll_becomes_an_event() {
    assert_eq!(update(LoadStatus::NotLoaded, None), Event::AssetsPending);
    assert_eq!(update(LoadStatus::Loading, Some(manifest("[]"))), Event::AssetsPending);
    assert_eq!(update(LoadStatus::Failed, Some(manifest("[]"))), Event::AssetsFailed);
    assert_eq!(update(LoadStatus::Loaded, None), Event::AssetsFailed);
    assert_eq!(update(LoadStatus::Loaded, Some(manifest("[1]"))), Event::AssetsLoaded(manifest("[1]")));
}

#[test]
fn setup_levels_makes_the_first_level_current() {
    let (levels, current) = setup_levels(&Json::parse(MANIFEST.as_bytes()).unwrap()).unwrap();
    assert_eq!(levels.0.len(), 3);
    assert_eq!(current, CurrentLevel(level("one", "levels/one.json", Some("two"))));
    assert_eq!(setup_levels(&Json::Array(vec![])), Err(LevelError::MalformedDocument));
    assert_eq!(setup_levels(&Json::Null), Err(LevelError::MalformedDocument));
}

#[test]
fn levels_are_found_by_name() {
    let levels = Levels(vec![level("a", "1", None), level("b", "2", None), level("a", "3", None)]);
    assert_eq!(levels.get("a"), Some(&level("a", "1", None)));
    assert_eq!(levels.get("b"), Some(&level("b", "2", None)));
    assert_eq!(levels.get("c"), None);
    assert_eq!(Levels::from_json(&Json::parse(MANIFEST.as_bytes()).unwrap()).unwrap().get("lost").unwrap().map, "levels/lost.json");
}

#[test]
fn level_transition_moves_to_the_successor() {
    let levels = Levels(vec![level("a", "1", Some("b")), level("b", "2", None), level("c", "3", Some("x"))]);
    let mut current = CurrentLevel(level("a", "1", Some("b")));
    assert_eq!(level_transition(&mut current, &levels), Ok(Some(GameState::Playing)));
    assert_eq!(current, CurrentLevel(level("b", "2", None)));
    assert_eq!(level_transition(&mut current, &levels), Ok(None));
    assert_eq!(current, CurrentLevel(level("b", "2", None)));
    let mut lost = CurrentLevel(level("c", "3", Some("x")));
    assert_eq!(level_transition(&mut lost, &levels), Err(LevelError::UnresolvedReference));
    assert_eq!(lost, CurrentLevel(level("c", "3", Some("x"))));
}

#[test]
fn errors_describe_themselves() {
    assert_eq!(LevelError::MalformedDocument.message(), "malformed document");
    assert_eq!(LevelError::UnsupportedFeature.message(), "unsupported feature");
    assert_eq!(LevelError::UnresolvedReference.message(), "unresolved reference");
    assert_eq!(LevelError::OverlappingTilesetRanges.message(), "overlapping tileset ranges");
    assert_eq!(LevelError::AssetLoadFailure.message(), "asset load failure");
}
