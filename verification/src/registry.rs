//! The levels of the game: a list that is read once, in which each level may
//! name the level that follows it.
use vstd::prelude::*;
use crate::error::LevelError;
use crate::json::{trees_of, Json, JsonTree};

verus! {

/// One level: its name, the path of its map, and the name of the level that
/// follows it, if one does.
#[derive(Debug, PartialEq, Eq)]
pub struct LevelData {
    pub name: String,
    pub map: String,
    pub next: Option<String>,
}

/// The model of a [`LevelData`].
pub struct LevelDescriptor {
    pub name: Seq<char>,
    pub map: Seq<char>,
    pub next: Option<Seq<char>>,
}

impl View for LevelData {
    type V = LevelDescriptor;

    open spec fn view(&self) -> LevelDescriptor {
        LevelDescriptor {
            name: self.name@,
            map: self.map@,
            next: match self.next {
                Some(next) => Some(next@),
                None => None,
            },
        }
    }
}

impl Clone for LevelData {
    fn clone(&self) -> (copy: LevelData)
        ensures
            copy@ == self@,
    {
        LevelData {
            name: self.name.clone(),
            map: self.map.clone(),
            next: match &self.next {
                Some(next) => Some(next.clone()),
                None => None,
            },
        }
    }
}

/// The registry of levels, in the order of the manifest.
#[derive(Debug, PartialEq, Eq)]
pub struct Levels(pub Vec<LevelData>);

impl View for Levels {
    type V = Seq<LevelDescriptor>;

    open spec fn view(&self) -> Seq<LevelDescriptor> {
        self.0@.map_values(|level: LevelData| level@)
    }
}

/// The level that is being played.
#[derive(Debug, PartialEq, Eq)]
pub struct CurrentLevel(pub LevelData);

impl View for CurrentLevel {
    type V = LevelDescriptor;

    open spec fn view(&self) -> LevelDescriptor {
        self.0@
    }
}

/// The position of the first of `levels`, from position `from` on, that is
/// called `name`.
pub open spec fn find_level(levels: Seq<LevelDescriptor>, name: Seq<char>, from: int) -> Option<int>
    decreases levels.len() - from,
{
    if from < 0 || from >= levels.len() {
        None
    } else if levels[from].name == name {
        Some(from)
    } else {
        find_level(levels, name, from + 1)
    }
}

/// What `find_level` finds is the first level of that name.
pub proof fn find_level_is_first(levels: Seq<LevelDescriptor>, name: Seq<char>, from: int)
    requires
        0 <= from,
    ensures
        match find_level(levels, name, from) {
            Some(i) => from <= i < levels.len() && levels[i].name == name && forall|j: int|
                from <= j < i ==> levels[j].name != name,
            None => forall|j: int| from <= j < levels.len() ==> levels[j].name != name,
        },
    decreases levels.len() - from,
{
    if from < levels.len() && levels[from].name != name {
        find_level_is_first(levels, name, from + 1);
    }
}

impl Levels {
    /// The first level called `name`.
    pub fn get(&self, name: &str) -> (level: Option<&LevelData>)
        ensures
            match find_level(self@, name@, 0) {
                Some(i) => level matches Some(found) && found@ == self@[i],
                None => level is None,
            },
    {
        let mut i: usize = 0;
        while i < self.0.len()
            invariant
                i <= self.0@.len(),
                find_level(self@, name@, 0) == find_level(self@, name@, i as int),
            decreases self.0@.len() - i,
        {
            assert(self@[i as int] == self.0@[i as int]@);
            if crate::json::str_eq(self.0[i].name.as_str(), name) {
                return Some(&self.0[i]);
            }
            i += 1;
        }
        None
    }
}

/// The successor that an object names: none where it has no `next` member or
/// the member is null.
pub open spec fn next_of(tree: JsonTree) -> Option<Option<Seq<char>>> {
    match tree.member("next"@) {
        None => Some(None),
        Some(JsonTree::Null) => Some(None),
        Some(JsonTree::Text(name)) => Some(Some(name)),
        Some(_) => None,
    }
}

/// The level that an object describes.
pub open spec fn level_of(tree: JsonTree) -> Option<LevelDescriptor> {
    if tree.text_at("name"@) is Some && tree.text_at("map"@) is Some && next_of(tree) is Some {
        Some(LevelDescriptor { name: tree.text_at("name"@)->0, map: tree.text_at("map"@)->0, next: next_of(tree)->0 })
    } else {
        None
    }
}

/// The levels that a manifest describes: an array of at least one level.
pub open spec fn levels_of(tree: JsonTree) -> Result<Seq<LevelDescriptor>, LevelError> {
    match tree.as_array() {
        Some(items) => if items.len() > 0 && forall|i: int|
            0 <= i < items.len() ==> level_of(#[trigger] items[i]) is Some {
            Ok(Seq::new(items.len(), |i: int| level_of(items[i])->0))
        } else {
            Err(LevelError::MalformedDocument)
        },
        None => Err(LevelError::MalformedDocument),
    }
}

/// The level that an object describes.
pub fn read_level(json: &Json) -> (level: Option<LevelData>)
    ensures
        match level {
            Some(level) => level_of(json@) == Some(level@),
            None => level_of(json@) is None,
        },
{
    let name = match json.text_at("name") {
        Some(name) => name,
        None => {
            return None;
        },
    };
    let map = match json.text_at("map") {
        Some(map) => map,
        None => {
            return None;
        },
    };
    let next = match json.member("next") {
        None => None,
        Some(Json::Null) => None,
        Some(Json::Text(next)) => Some(next.clone()),
        Some(_) => {
            return None;
        },
    };
    Some(LevelData { name, map, next })
}

impl Levels {
    /// Reads the registry from a manifest.
    pub fn from_json(manifest: &Json) -> (levels: Result<Levels, LevelError>)
        ensures
            match levels {
                Ok(levels) => levels_of(manifest@) matches Ok(models) && models == levels@,
                Err(error) => levels_of(manifest@) matches Err(reason) && reason == error,
            },
    {
        let items = match manifest.as_array() {
            Some(items) => items,
            None => {
                return Err(LevelError::MalformedDocument);
            },
        };
        if items.len() == 0 {
            return Err(LevelError::MalformedDocument);
        }
        let ghost trees = trees_of(items@);
        let mut levels: Vec<LevelData> = Vec::new();
        let mut i: usize = 0;
        while i < items.len()
            invariant
                i <= items@.len(),
                trees == trees_of(items@),
                manifest@.as_array() == Some(trees),
                levels@.len() == i,
                forall|k: int|
                    0 <= k < i ==> level_of(#[trigger] trees[k]) is Some && levels@[k]@ == level_of(trees[k])->0,
            decreases items@.len() - i,
        {
            match read_level(&items[i]) {
                Some(level) => {
                    levels.push(level);
                },
                None => {
                    assert(level_of(trees[i as int]) is None);
                    return Err(LevelError::MalformedDocument);
                },
            }
            i += 1;
        }
        let levels = Levels(levels);
        assert(levels@ =~= levels_of(manifest@)->Ok_0);
        Ok(levels)
    }
}

/// Reads the registry from a manifest and makes its first level the current
/// one.
pub fn setup_levels(manifest: &Json) -> (ready: Result<(Levels, CurrentLevel), LevelError>)
    ensures
        match ready {
            Ok((levels, current)) => levels_of(manifest@) matches Ok(models) && models == levels@ && models.len() > 0
                && current@ == models[0],
            Err(error) => levels_of(manifest@) matches Err(reason) && reason == error,
        },
{
    match Levels::from_json(manifest) {
        Ok(levels) => {
            assert(levels_of(manifest@)->Ok_0.len() > 0);
            assert(levels@.len() == levels.0@.len());
            let current = CurrentLevel(levels.0[0].clone());
            assert(levels@[0] == levels.0@[0]@);
            Ok((levels, current))
        },
        Err(error) => Err(error),
    }
}

} // verus!
