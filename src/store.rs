use vstd::prelude::*;
use crate::projection::{find_position, lookup, project, projected};
use crate::records::{Armor, Character, Item, Skill, Weapon};
use serde_json::Error as JsonError;
use std::io::Error as IoError;

verus! {

/// Where the skill collection is read from.
pub const SKILL_DB: &'static str = "./data/skills.json";

/// Where the character collection is read from.
pub const CHARACTER_DB: &'static str = "./data/character.json";

/// Where the weapon collection is read from.
pub const WEAPON_DB: &'static str = "./data/weapons.json";

/// Where the gear collection is read from.
pub const ITEM_DB: &'static str = "./data/items.json";

/// Where the armor collection is read from.
pub const ARMOR_DB: &'static str = "./data/armor.json";

/// std's I/O error, carried through unopened.
#[verifier::external_type_specification]
#[verifier::external_body]
pub struct ExIoError(IoError);

/// serde_json's parse error, carried through unopened.
#[verifier::external_type_specification]
#[verifier::external_body]
pub struct ExJsonError(JsonError);

/// Why a collection could not be loaded.
#[derive(Debug)]
pub enum Error {
    /// The data source is missing or could not be read.
    ReadDBError(IoError),
    /// The data source was read but does not hold records of the expected
    /// shape.
    ParseDBError(JsonError),
}

/// The five entity collections as read from the data source, each in load
/// order.
pub struct Compendium {
    pub characters: Vec<Character>,
    pub skills: Vec<Skill>,
    pub weapons: Vec<Weapon>,
    pub armor: Vec<Armor>,
    pub items: Vec<Item>,
}

/// The character at roster position `index`, a stale index being read as
/// the first position; none when the roster is empty.
pub open spec fn character_at(roster: Seq<Character>, index: int) -> Option<Character> {
    if roster.len() == 0 {
        None
    } else if index >= roster.len() {
        Some(roster[0])
    } else {
        Some(roster[index])
    }
}

/// The number of skill records that the character at roster position
/// `index` points at; 0 when the roster is empty.
pub open spec fn skill_count(c: Compendium, index: int) -> int {
    match character_at(c.characters@, index) {
        Some(ch) => projected(ch.skill_ids@, c.skills@).len() as int,
        None => 0,
    }
}

/// The outcome of loading all five collections: the compendium when every
/// load succeeded, else the error of the first one that failed, in the
/// order characters, skills, weapons, armor, gear.
pub open spec fn gathered(
    characters: Result<Vec<Character>, Error>,
    skills: Result<Vec<Skill>, Error>,
    weapons: Result<Vec<Weapon>, Error>,
    armor: Result<Vec<Armor>, Error>,
    items: Result<Vec<Item>, Error>,
) -> Result<Compendium, Error> {
    match characters {
        Err(e) => Err(e),
        Ok(characters) => match skills {
            Err(e) => Err(e),
            Ok(skills) => match weapons {
                Err(e) => Err(e),
                Ok(weapons) => match armor {
                    Err(e) => Err(e),
                    Ok(armor) => match items {
                        Err(e) => Err(e),
                        Ok(items) => Ok(Compendium { characters, skills, weapons, armor, items }),
                    },
                },
            },
        },
    }
}

/// Puts the five loaded collections together under one policy for all of
/// them: any failed load fails the whole pass with its error, and no
/// collection is replaced by an empty one.
pub fn gather(
    characters: Result<Vec<Character>, Error>,
    skills: Result<Vec<Skill>, Error>,
    weapons: Result<Vec<Weapon>, Error>,
    armor: Result<Vec<Armor>, Error>,
    items: Result<Vec<Item>, Error>,
) -> (r: Result<Compendium, Error>)
    ensures
        r == gathered(characters, skills, weapons, armor, items),
        r is Ok <==> (characters is Ok && skills is Ok && weapons is Ok && armor is Ok && items is Ok),
{
    let characters = match characters {
        Ok(v) => v,
        Err(e) => return Err(e),
    };
    let skills = match skills {
        Ok(v) => v,
        Err(e) => return Err(e),
    };
    let weapons = match weapons {
        Ok(v) => v,
        Err(e) => return Err(e),
    };
    let armor = match armor {
        Ok(v) => v,
        Err(e) => return Err(e),
    };
    let items = match items {
        Ok(v) => v,
        Err(e) => return Err(e),
    };
    Ok(Compendium { characters, skills, weapons, armor, items })
}

impl Compendium {
    /// The character selected by roster position `index`, a stale index
    /// being read as the first position.
    pub fn character_at(&self, index: usize) -> (r: Option<&Character>)
        ensures
            match r {
                Some(ch) => character_at(self.characters@, index as int) == Some(*ch),
                None => character_at(self.characters@, index as int) is None,
            },
    {
        if self.characters.len() == 0 {
            None
        } else if index >= self.characters.len() {
            Some(&self.characters[0])
        } else {
            Some(&self.characters[index])
        }
    }

    /// How many skill records the character at roster position `index`
    /// points at.
    pub fn skill_count(&self, index: usize) -> (r: usize)
        ensures
            r == skill_count(*self, index as int),
    {
        match self.character_at(index) {
            Some(ch) => project(&ch.skill_ids, &self.skills).len(),
            None => 0,
        }
    }
}

} // verus!
