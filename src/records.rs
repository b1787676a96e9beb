use vstd::prelude::*;

verus! {

/// A record of an entity collection: it carries an integer identifier by
/// which reference lists point at it.
pub trait Record {
    spec fn key(&self) -> usize;

    fn id(&self) -> (r: usize)
        ensures
            r == self.key(),
    ;
}

/// A piece of gear.
#[derive(Clone, Debug, PartialEq, Eq)]
pub struct Item {
    pub id: usize,
    pub name: String,
    pub description: String,
}

/// What a character looks like.
#[derive(Clone, Debug, PartialEq, Eq)]
pub struct Appearance {
    pub face: String,
    pub clothing: String,
}

/// A suit of armor.
#[derive(Clone, Debug, PartialEq, Eq)]
pub struct Armor {
    pub id: usize,
    pub name: String,
    pub rating: u8,
    pub addons: String,
    pub tech: String,
    pub comment: String,
}

/// A weapon: bonus, initiative, damage, critical threshold, range, notes
/// and cost.
#[derive(Clone, Debug, PartialEq, Eq)]
pub struct Weapon {
    pub id: usize,
    pub namn: String,
    pub bonus: u8,
    pub init: u8,
    pub skada: u8,
    pub krit: u8,
    pub rackvidd: String,
    pub ovrigt: String,
    pub kostnad: u32,
}

/// Ratings of the advanced skills; a rating of 0 means the skill is not
/// trained.
#[derive(Clone, Copy, Debug, PartialEq, Eq, Structural)]
pub struct Kvalificerade {
    pub befal: u8,
    pub datadjinn: u8,
    pub horistonens_kultur: u8,
    pub medikrugi: u8,
    pub mystiska_krafter: u8,
    pub pilot: u8,
    pub teknologi: u8,
    pub vetenskap: u8,
}

/// Ratings of the general skills.
#[derive(Clone, Copy, Debug, PartialEq, Eq, Structural)]
pub struct Allmanna {
    pub kraftprov: u8,
    pub manipulera: u8,
    pub narkamp: u8,
    pub rorlighet: u8,
    pub skjutvapen: u8,
    pub smyga: u8,
    pub spaning: u8,
    pub overlevnad: u8,
}

/// The skill ratings block of a character.
#[derive(Clone, Copy, Debug, PartialEq, Eq, Structural)]
pub struct Fardigheter {
    pub allmanna: Allmanna,
    pub kvalificerade: Kvalificerade,
}

/// The four attributes of a character: strength, agility, wits, empathy.
#[derive(Clone, Copy, Debug, PartialEq, Eq, Structural)]
pub struct Grundegenskaper {
    pub styrka: u8,
    pub kyla: u8,
    pub skarpa: u8,
    pub kansla: u8,
}

/// A player character, with reference lists into the skill, weapon, armor
/// and gear collections. A reference list may repeat an id or name one
/// that no record carries.
#[derive(Clone, Debug, PartialEq, Eq)]
pub struct Character {
    pub id: usize,
    pub name: String,
    pub experience: u8,
    pub class: String,
    pub ship_position: String,
    pub problem: String,
    pub icon: String,
    pub background: String,
    pub upbringing: String,
    pub group_concept: String,
    pub skill_ids: Vec<usize>,
    pub weapon_ids: Vec<usize>,
    pub armor_ids: Vec<usize>,
    pub gear_ids: Vec<usize>,
    pub birr: u32,
    pub appearance: Appearance,
    pub grundegenskaper: Grundegenskaper,
    pub fardigheter: Fardigheter,
}

/// A talent, filed under a category.
#[derive(Clone, Debug, PartialEq, Eq)]
pub struct Skill {
    pub id: usize,
    pub name: String,
    pub description: String,
    pub category: String,
}

impl Record for Item {
    open spec fn key(&self) -> usize {
        self.id
    }

    fn id(&self) -> (r: usize) {
        self.id
    }
}

impl Record for Armor {
    open spec fn key(&self) -> usize {
        self.id
    }

    fn id(&self) -> (r: usize) {
        self.id
    }
}

impl Record for Weapon {
    open spec fn key(&self) -> usize {
        self.id
    }

    fn id(&self) -> (r: usize) {
        self.id
    }
}

impl Record for Character {
    open spec fn key(&self) -> usize {
        self.id
    }

    fn id(&self) -> (r: usize) {
        self.id
    }
}

impl Record for Skill {
    open spec fn key(&self) -> usize {
        self.id
    }

    fn id(&self) -> (r: usize) {
        self.id
    }
}

} // verus!
