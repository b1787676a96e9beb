use vstd::prelude::*;
use crate::cursor::clamped;
use crate::projection::{project, projected};
use crate::records::{Armor, Character, Fardigheter, Grundegenskaper, Item, Skill, Weapon};
use crate::store::{character_at, Compendium};

verus! {

/// The value of a general skill: attribute plus rating.
pub open spec fn general_value(attribute: u8, rating: u8) -> int {
    attribute + rating
}

/// The value of an advanced skill: attribute plus rating when trained,
/// 0 when not.
pub open spec fn advanced_value(attribute: u8, rating: u8) -> int {
    if rating > 0 {
        attribute + rating
    } else {
        0
    }
}

/// The sixteen skill values of a character, general skills first, each
/// with the attribute it is based on.
pub open spec fn skill_values_of(g: Grundegenskaper, f: Fardigheter) -> Seq<int> {
    let a = f.allmanna;
    let k = f.kvalificerade;
    seq![
        general_value(g.styrka, a.kraftprov),
        general_value(g.kansla, a.manipulera),
        general_value(g.styrka, a.narkamp),
        general_value(g.kyla, a.rorlighet),
        general_value(g.kyla, a.skjutvapen),
        general_value(g.kyla, a.smyga),
        general_value(g.skarpa, a.spaning),
        general_value(g.skarpa, a.overlevnad),
        advanced_value(g.kansla, k.befal),
        advanced_value(g.skarpa, k.datadjinn),
        advanced_value(g.kansla, k.horistonens_kultur),
        advanced_value(g.skarpa, k.medikrugi),
        advanced_value(g.kansla, k.mystiska_krafter),
        advanced_value(g.kyla, k.pilot),
        advanced_value(g.skarpa, k.teknologi),
        advanced_value(g.skarpa, k.vetenskap),
    ]
}

fn general(attribute: u8, rating: u8) -> (r: u16)
    ensures
        r == general_value(attribute, rating),
{
    attribute as u16 + rating as u16
}

fn advanced(attribute: u8, rating: u8) -> (r: u16)
    ensures
        r == advanced_value(attribute, rating),
{
    if rating > 0 {
        attribute as u16 + rating as u16
    } else {
        0
    }
}

/// The character's skill values in table order: kraftprov, manipulera,
/// närkamp, rörlighet, skjutvapen, smyga, spaning, överlevnad, then the
/// advanced skills befäl, datadjinn, horisontens kultur, medikurgi,
/// mystiska krafter, pilot, teknologi, vetenskap.
pub fn skill_values(c: &Character) -> (r: Vec<u16>)
    ensures
        r@.len() == 16,
        forall|i: int| 0 <= i < 16 ==> r@[i] as int == skill_values_of(c.grundegenskaper, c.fardigheter)[i],
{
    let g = c.grundegenskaper;
    let a = c.fardigheter.allmanna;
    let k = c.fardigheter.kvalificerade;
    let r = vec![
        general(g.styrka, a.kraftprov),
        general(g.kansla, a.manipulera),
        general(g.styrka, a.narkamp),
        general(g.kyla, a.rorlighet),
        general(g.kyla, a.skjutvapen),
        general(g.kyla, a.smyga),
        general(g.skarpa, a.spaning),
        general(g.skarpa, a.overlevnad),
        advanced(g.kansla, k.befal),
        advanced(g.skarpa, k.datadjinn),
        advanced(g.kansla, k.horistonens_kultur),
        advanced(g.skarpa, k.medikrugi),
        advanced(g.kansla, k.mystiska_krafter),
        advanced(g.kyla, k.pilot),
        advanced(g.skarpa, k.teknologi),
        advanced(g.skarpa, k.vetenskap),
    ];
    r
}

/// Whether the skill at position `i` opens a new category in the skill
/// browser: its category differs from that of the skill before it (the
/// first skill opens one unless its category is empty).
pub open spec fn opens_category(skills: Seq<Skill>, i: int) -> bool {
    if i == 0 {
        skills[0].category@.len() != 0
    } else {
        skills[i].category@ != skills[i - 1].category@
    }
}

/// For each skill, whether it opens a new category heading.
pub fn category_starts(skills: &Vec<Skill>) -> (r: Vec<bool>)
    ensures
        r@.len() == skills@.len(),
        forall|i: int| 0 <= i < r@.len() ==> r@[i] == opens_category(skills@, i),
{
    let mut r: Vec<bool> = Vec::new();
    let mut i: usize = 0;
    while i < skills.len()
        invariant
            i <= skills@.len(),
            r@.len() == i,
            forall|j: int| 0 <= j < i ==> r@[j] == opens_category(skills@, j),
        decreases skills@.len() - i,
    {
        let opens = if i == 0 {
            !skills[0].category.as_str().is_empty()
        } else {
            !(skills[i].category == skills[i - 1].category)
        };
        r.push(opens);
        i = i + 1;
    }
    r
}

/// The record that a cursor at `index` selects in `list`, a stale index
/// being read as the first element; none when the list is empty.
pub fn pick<T>(list: &Vec<T>, index: usize) -> (r: Option<&T>)
    ensures
        list@.len() == 0 ==> r is None,
        list@.len() > 0 ==> r == Some(&list@[clamped(index as int, list@.len() as int)]),
{
    if list.len() == 0 {
        None
    } else if index >= list.len() {
        Some(&list[0])
    } else {
        Some(&list[index])
    }
}

/// Everything the character view shows of the selected character: the
/// record itself and the records its four reference lists point at.
pub struct CharacterSheet<'a> {
    pub character: &'a Character,
    pub skills: Vec<&'a Skill>,
    pub weapons: Vec<&'a Weapon>,
    pub armor: Vec<&'a Armor>,
    pub gear: Vec<&'a Item>,
}

/// `v` refers, in order, to exactly the records of `p`.
pub open spec fn lists<T>(v: Seq<&T>, p: Seq<T>) -> bool {
    &&& v.len() == p.len()
    &&& forall|k: int| 0 <= k < v.len() ==> *v[k] == p[k]
}

impl Compendium {
    /// The sheet of the character at roster position `index` (a stale
    /// index selecting the first character), with its skills, weapons,
    /// armor and gear joined from the other collections; none when the
    /// roster is empty.
    pub fn sheet(&self, index: usize) -> (r: Option<CharacterSheet<'_>>)
        ensures
            match r {
                Some(s) => {
                    &&& character_at(self.characters@, index as int) == Some(*s.character)
                    &&& lists(s.skills@, projected(s.character.skill_ids@, self.skills@))
                    &&& lists(s.weapons@, projected(s.character.weapon_ids@, self.weapons@))
                    &&& lists(s.armor@, projected(s.character.armor_ids@, self.armor@))
                    &&& lists(s.gear@, projected(s.character.gear_ids@, self.items@))
                },
                None => character_at(self.characters@, index as int) is None,
            },
    {
        match self.character_at(index) {
            Some(ch) => Some(
                CharacterSheet {
                    character: ch,
                    skills: project(&ch.skill_ids, &self.skills),
                    weapons: project(&ch.weapon_ids, &self.weapons),
                    armor: project(&ch.armor_ids, &self.armor),
                    gear: project(&ch.gear_ids, &self.items),
                },
            ),
            None => None,
        }
    }
}

} // verus!
