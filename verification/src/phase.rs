//! The phases of the game: loading, playing a level, and the step from one
//! level to the next.
//!
//! The game starts in `Loading`, asking for its assets. Once every asset is
//! loaded, the level manifest is read and its first level is played. A request to go on ends the
//! level; on the next tick the level's successor is looked up and played. A
//! level without a successor is the end of the chain: the game then stays in
//! `Transitioning`. A failure of any kind leads to `Failed`, which nothing
//! leaves.
use vstd::prelude::*;
use crate::error::LevelError;
use crate::json::JsonTree;
use crate::loader::JsonFile;
use crate::registry::{find_level, levels_of, setup_levels, CurrentLevel, LevelDescriptor, Levels};

verus! {

/// The phase that the game is in.
#[derive(Clone, Copy, Debug, PartialEq, Eq, Hash, Structural)]
pub enum GameState {
    /// The assets are being loaded.
    Loading,
    /// A level is set up and played.
    Playing,
    /// A level has ended and its successor is due.
    Transitioning,
    /// Loading or setting up a level has failed.
    Failed,
}

impl Default for GameState {
    fn default() -> (state: GameState)
        ensures
            state == GameState::Loading,
    {
        GameState::Loading
    }
}

/// What happened since the last step.
#[derive(Debug, PartialEq, Eq)]
pub enum Event {
    /// The assets were polled and are not all loaded yet.
    AssetsPending,
    /// The assets were polled and are all loaded; with the level manifest.
    AssetsLoaded(JsonFile),
    /// The assets were polled and one of them has failed.
    AssetsFailed,
    /// The player asked for the next level.
    TransitionRequested,
    /// The current level could not be set up.
    LevelFailed(LevelError),
    /// A tick went by.
    Tick,
}

/// The model of an [`Event`].
pub enum EventModel {
    AssetsPending,
    AssetsLoaded(JsonTree),
    AssetsFailed,
    TransitionRequested,
    LevelFailed(LevelError),
    Tick,
}

impl View for Event {
    type V = EventModel;

    open spec fn view(&self) -> EventModel {
        match self {
            Event::AssetsPending => EventModel::AssetsPending,
            Event::AssetsLoaded(manifest) => EventModel::AssetsLoaded(manifest@),
            Event::AssetsFailed => EventModel::AssetsFailed,
            Event::TransitionRequested => EventModel::TransitionRequested,
            Event::LevelFailed(error) => EventModel::LevelFailed(*error),
            Event::Tick => EventModel::Tick,
        }
    }
}

/// What is to be done after a step.
#[derive(Clone, Copy, Debug, PartialEq, Eq, Structural)]
pub enum Effect {
    Nothing,
    /// Ask for the asset folders and the level manifest to be loaded.
    LoadAssets,
    /// Set up the tiles of the current level.
    SpawnLevel,
    /// Take down the tiles of the level that has ended.
    DespawnLevel,
}

/// The model of a [`Session`].
pub struct SessionModel {
    pub state: GameState,
    pub levels: Seq<LevelDescriptor>,
    pub current: Option<LevelDescriptor>,
    pub failure: Option<LevelError>,
}

impl SessionModel {
    /// A session at its start.
    pub open spec fn start() -> SessionModel {
        SessionModel { state: GameState::Loading, levels: Seq::empty(), current: None, failure: None }
    }

    /// The session after a failure.
    pub open spec fn failed(self, error: LevelError) -> SessionModel {
        SessionModel { state: GameState::Failed, failure: Some(error), ..self }
    }

    /// Whether the session holds what its phase needs: a level while one is
    /// played or has ended, an error once it has failed.
    pub open spec fn well_formed(self) -> bool {
        match self.state {
            GameState::Loading => true,
            GameState::Playing | GameState::Transitioning => self.current is Some,
            GameState::Failed => self.failure is Some,
        }
    }

    /// The session after the current level has ended and a tick has gone by.
    pub open spec fn advance(self) -> (SessionModel, Effect) {
        match self.current {
            Some(level) => match level.next {
                None => (self, Effect::Nothing),
                Some(name) => match find_level(self.levels, name, 0) {
                    Some(i) => (
                        SessionModel { state: GameState::Playing, current: Some(self.levels[i]), ..self },
                        Effect::SpawnLevel,
                    ),
                    None => (self.failed(LevelError::UnresolvedReference), Effect::Nothing),
                },
            },
            None => (self, Effect::Nothing),
        }
    }

    /// The session after an event, and what is to be done then.
    pub open spec fn next(self, event: EventModel) -> (SessionModel, Effect) {
        match self.state {
            GameState::Loading => match event {
                EventModel::AssetsLoaded(manifest) => match levels_of(manifest) {
                    Ok(levels) => (
                        SessionModel {
                            state: GameState::Playing,
                            levels,
                            current: Some(levels[0]),
                            failure: None,
                        },
                        Effect::SpawnLevel,
                    ),
                    Err(error) => (self.failed(error), Effect::Nothing),
                },
                EventModel::AssetsFailed => (self.failed(LevelError::AssetLoadFailure), Effect::Nothing),
                _ => (self, Effect::Nothing),
            },
            GameState::Playing => match event {
                EventModel::TransitionRequested => (
                    SessionModel { state: GameState::Transitioning, ..self },
                    Effect::DespawnLevel,
                ),
                EventModel::LevelFailed(error) => (self.failed(error), Effect::DespawnLevel),
                _ => (self, Effect::Nothing),
            },
            GameState::Transitioning => match event {
                EventModel::Tick => self.advance(),
                _ => (self, Effect::Nothing),
            },
            GameState::Failed => (self, Effect::Nothing),
        }
    }
}

/// Makes the successor of the current level the current one.
///
/// Returns the phase to enter: `Playing` where the level has a successor,
/// none where it has not. A successor that the registry does not hold is an
/// error, and the current level then stays.
pub fn level_transition(current: &mut CurrentLevel, levels: &Levels) -> (moved: Result<Option<GameState>, LevelError>)
    ensures
        match old(current)@.next {
            None => moved matches Ok(None) && final(current)@ == old(current)@,
            Some(name) => match find_level(levels@, name, 0) {
                Some(i) => moved matches Ok(Some(state)) && state == GameState::Playing && final(current)@
                    == levels@[i],
                None => moved matches Err(error) && error == LevelError::UnresolvedReference && final(current)@
                    == old(current)@,
            },
        },
{
    let found = match &current.0.next {
        None => {
            return Ok(None);
        },
        Some(name) => levels.get(name.as_str()),
    };
    match found {
        Some(level) => {
            current.0 = level.clone();
            Ok(Some(GameState::Playing))
        },
        None => Err(LevelError::UnresolvedReference),
    }
}

/// The state of the game between steps: its phase, the registry of levels,
/// the current level and, after a failure, the reason.
#[derive(Debug)]
pub struct Session {
    state: GameState,
    levels: Levels,
    current: Option<CurrentLevel>,
    failure: Option<LevelError>,
}

impl View for Session {
    type V = SessionModel;

    closed spec fn view(&self) -> SessionModel {
        SessionModel {
            state: self.state,
            levels: self.levels@,
            current: match self.current {
                Some(level) => Some(level@),
                None => None,
            },
            failure: self.failure,
        }
    }
}

impl Session {
    #[verifier::type_invariant]
    spec fn sound(&self) -> bool {
        self@.well_formed()
    }

    /// A session at its start: loading, with no levels yet, and the assets to
    /// be asked for.
    pub fn start() -> (started: (Session, Effect))
        ensures
            started.0@ == SessionModel::start(),
            started.1 == Effect::LoadAssets,
    {
        let levels = Levels(Vec::new());
        assert(levels@ =~= Seq::empty());
        (Session { state: GameState::Loading, levels, current: None, failure: None }, Effect::LoadAssets)
    }

    /// The phase that the game is in.
    pub fn state(&self) -> (state: GameState)
        ensures
            state == self@.state,
    {
        self.state
    }

    /// The registry of levels; empty until the manifest is read.
    pub fn levels(&self) -> (levels: &Levels)
        ensures
            levels@ == self@.levels,
    {
        &self.levels
    }

    /// The current level; there is one while a level is played and after it
    /// has ended.
    pub fn current(&self) -> (current: Option<&CurrentLevel>)
        ensures
            match current {
                Some(level) => self@.current == Some(level@),
                None => self@.current is None,
            },
            self@.state == GameState::Playing || self@.state == GameState::Transitioning ==> current is Some,
    {
        proof {
            use_type_invariant(self);
        }
        match &self.current {
            Some(level) => Some(level),
            None => None,
        }
    }

    /// Why the game has failed, once it has.
    pub fn failure(&self) -> (failure: Option<LevelError>)
        ensures
            failure == self@.failure,
            self@.state == GameState::Failed ==> failure is Some,
    {
        proof {
            use_type_invariant(self);
        }
        self.failure
    }

    /// The session after a failure.
    fn fail(self, error: LevelError) -> (session: Session)
        ensures
            session@ == self@.failed(error),
    {
        Session { state: GameState::Failed, levels: self.levels, current: self.current, failure: Some(error) }
    }

    /// The session after an event, and what is to be done then.
    pub fn step(self, event: Event) -> (after: (Session, Effect))
        ensures
            after.0@ == self@.next(event@).0,
            after.1 == self@.next(event@).1,
    {
        proof {
            use_type_invariant(&self);
        }
        match self.state {
            GameState::Loading => match event {
                Event::AssetsLoaded(manifest) => match setup_levels(&manifest.0) {
                    Ok((levels, current)) => (
                        Session { state: GameState::Playing, levels, current: Some(current), failure: None },
                        Effect::SpawnLevel,
                    ),
                    Err(error) => (self.fail(error), Effect::Nothing),
                },
                Event::AssetsFailed => (self.fail(LevelError::AssetLoadFailure), Effect::Nothing),
                _ => (self, Effect::Nothing),
            },
            GameState::Playing => match event {
                Event::TransitionRequested => (
                    Session {
                        state: GameState::Transitioning,
                        levels: self.levels,
                        current: self.current,
                        failure: self.failure,
                    },
                    Effect::DespawnLevel,
                ),
                Event::LevelFailed(error) => (self.fail(error), Effect::DespawnLevel),
                _ => (self, Effect::Nothing),
            },
            GameState::Transitioning => match event {
                Event::Tick => {
                    let Session { state, levels, current, failure } = self;
                    match current {
                        Some(mut level) => match level_transition(&mut level, &levels) {
                            Ok(Some(entered)) => (
                                Session { state: entered, levels, current: Some(level), failure },
                                Effect::SpawnLevel,
                            ),
                            Ok(None) => (Session { state, levels, current: Some(level), failure }, Effect::Nothing),
                            Err(error) => (
                                Session {
                                    state: GameState::Failed,
                                    levels,
                                    current: Some(level),
                                    failure: Some(error),
                                },
                                Effect::Nothing,
                            ),
                        },
                        None => (Session { state, levels, current: None, failure }, Effect::Nothing),
                    }
                },
                _ => (self, Effect::Nothing),
            },
            GameState::Failed => (self, Effect::Nothing),
        }
    }
}

/// Every step leaves the session holding what its phase needs.
pub proof fn next_keeps_well_formed(session: SessionModel, event: EventModel)
    requires
        session.well_formed(),
    ensures
        session.next(event).0.well_formed(),
{
}

/// Once every asset is loaded and the manifest lists at least one level, the
/// game plays the first level of the manifest, and the registry holds the
/// manifest's levels.
pub proof fn loading_ends_in_first_level(session: SessionModel, manifest: JsonTree)
    requires
        session.state == GameState::Loading,
        levels_of(manifest) is Ok,
    ensures
        ({
            let after = session.next(EventModel::AssetsLoaded(manifest)).0;
            &&& after.state == GameState::Playing
            &&& after.levels == levels_of(manifest)->Ok_0
            &&& after.levels.len() > 0
            &&& after.current == Some(after.levels[0])
        }),
{
}

/// A request for the next level ends the level that is played.
pub proof fn request_ends_level(session: SessionModel)
    requires
        session.state == GameState::Playing,
    ensures
        session.next(EventModel::TransitionRequested).0.state == GameState::Transitioning,
        session.next(EventModel::TransitionRequested).1 == Effect::DespawnLevel,
{
}

/// After the last level of a chain the game stays where it is: whatever
/// happens, it is still `Transitioning`, and nothing is to be done.
pub proof fn chain_ends_in_transitioning(session: SessionModel, event: EventModel)
    requires
        session.state == GameState::Transitioning,
        session.current matches Some(level) && level.next is None,
    ensures
        session.next(event) == (session, Effect::Nothing),
{
}

/// A level with a successor in the registry is followed by that successor.
pub proof fn successor_is_played(session: SessionModel)
    requires
        session.state == GameState::Transitioning,
        session.current matches Some(level) && level.next matches Some(name) && find_level(
            session.levels,
            name,
            0,
        ) is Some,
    ensures
        ({
            let name = session.current->0.next->0;
            let after = session.next(EventModel::Tick);
            &&& after.0.state == GameState::Playing
            &&& after.0.current == Some(session.levels[find_level(session.levels, name, 0)->0])
            &&& after.0.current->0.name == name
            &&& after.1 == Effect::SpawnLevel
        }),
{
    crate::registry::find_level_is_first(session.levels, session.current->0.next->0, 0);
}

/// Nothing leaves `Failed`.
pub proof fn failed_is_final(session: SessionModel, event: EventModel)
    requires
        session.state == GameState::Failed,
    ensures
        session.next(event) == (session, Effect::Nothing),
{
}

/// A failure to load ends in `Failed`, with the reason kept.
pub proof fn load_failure_is_kept(session: SessionModel)
    requires
        session.state == GameState::Loading,
    ensures
        session.next(EventModel::AssetsFailed).0.state == GameState::Failed,
        session.next(EventModel::AssetsFailed).0.failure == Some(LevelError::AssetLoadFailure),
{
}

} // verus!
