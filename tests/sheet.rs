use coriolis::records::{
    Allmanna, Appearance, Armor, Character, Fardigheter, Grundegenskaper, Item, Kvalificerade, Skill,
    Weapon,
};
use coriolis::sheet::{category_starts, pick, skill_values};
use coriolis::store::{gather, Compendium, Error};

fn character() -> Character {
    Character {
        id: 1,
        name: "Mira".to_string(),
        experience: 4,
        class: "Pilot".to_string(),
        ship_position: "Pilot".to_string(),
        problem: "Debts".to_string(),
        icon: "The Traveller".to_string(),
        background: "Plebeian".to_string(),
        upbringing: "Stationary".to_string(),
        group_concept: "Free traders".to_string(),
        skill_ids: vec![4, 99, 1],
        weapon_ids: vec![20, 21],
        armor_ids: vec![30],
        gear_ids: vec![41, 40, 41],
        birr: 500,
        appearance: Appearance { face: "Scarred".to_string(), clothing: "Coveralls".to_string() },
        grundegenskaper: Grundegenskaper { styrka: 3, kyla: 4, skarpa: 5, kansla: 2 },
        fardigheter: Fardigheter {
            allmanna: Allmanna {
                kraftprov: 1,
                manipulera: 2,
                narkamp: 0,
                rorlighet: 3,
                skjutvapen: 1,
                smyga: 0,
                spaning: 2,
                overlevnad: 1,
            },
            kvalificerade: Kvalificerade {
                befal: 0,
                datadjinn: 1,
                horistonens_kultur: 2,
                medikrugi: 0,
                mystiska_krafter: 0,
                pilot: 3,
                teknologi: 1,
                vetenskap: 0,
            },
        },
    }
}

fn skill(id: usize, category: &str) -> Skill {
    Skill { id, name: format!("s{}", id), description: String::new(), category: category.to_string() }
}

fn weapon(id: usize) -> Weapon {
    Weapon {
        id,
        namn: format!("w{}", id),
        bonus: 1,
        init: 0,
        skada: 2,
        krit: 2,
        rackvidd: "Kort".to_string(),
        ovrigt: String::new(),
        kostnad: 100,
    }
}

fn armor(id: usize) -> Armor {
    Armor {
        id,
        name: format!("a{}", id),
        rating: 3,
        addons: String::new(),
        tech: String::new(),
        comment: String::new(),
    }
}

fn item(id: usize) -> Item {
    Item { id, name: format!("i{}", id), description: String::new() }
}

fn compendium() -> Compendium {
    Compendium {
        characters: vec![character()],
        skills: vec![skill(1, "a"), skill(2, "a"), skill(4, "b")],
        weapons: vec![weapon(21), weapon(20)],
        armor: vec![armor(31), armor(30)],
        items: vec![item(40), item(41)],
    }
}

#[test]
fn skill_values_add_attribute_and_rating() {
    let v = skill_values(&character());
    assert_eq!(v, vec![4, 4, 3, 7, 5, 4, 7, 6, 0, 6, 4, 0, 0, 7, 6, 0]);
}

#[test]
fn skill_values_do_not_overflow() {
    let mut c = character();
    c.grundegenskaper.styrka = 255;
    c.fardigheter.allmanna.kraftprov = 255;
    c.grundegenskaper.skarpa = 200;
    c.fardigheter.kvalificerade.vetenskap = 100;
    let v = skill_values(&c);
    assert_eq!(v[0], 510);
    assert_eq!(v[15], 300);
}

#[test]
fn sheet_joins_all_reference_lists() {
    let data = compendium();
    let sheet = data.sheet(0).unwrap();
    assert_eq!(sheet.character.name, "Mira");
    assert_eq!(sheet.skills.iter().map(|s| s.id).collect::<Vec<_>>(), vec![4, 1]);
    assert_eq!(sheet.weapons.iter().map(|w| w.id).collect::<Vec<_>>(), vec![20, 21]);
    assert_eq!(sheet.armor.iter().map(|a| a.id).collect::<Vec<_>>(), vec![30]);
    assert_eq!(sheet.gear.iter().map(|i| i.id).collect::<Vec<_>>(), vec![41, 40, 41]);
    assert_eq!(data.sheet(5).unwrap().character.id, 1);
    assert_eq!(data.skill_count(0), 2);
}

#[test]
fn category_headings() {
    let skills = vec![skill(1, "a"), skill(2, "a"), skill(3, "b"), skill(4, "a"), skill(5, "a")];
    assert_eq!(category_starts(&skills), vec![true, false, true, true, false]);
    let blank_first = vec![skill(1, ""), skill(2, "x")];
    assert_eq!(category_starts(&blank_first), vec![false, true]);
    assert_eq!(category_starts(&vec![]), Vec::<bool>::new());
}

#[test]
fn pick_reads_stale_index_as_first() {
    let v = vec![10, 20, 30];
    assert_eq!(pick(&v, 1), Some(&20));
    assert_eq!(pick(&v, 3), Some(&10));
    assert_eq!(pick(&Vec::<u8>::new(), 0), None);
}

fn io_error() -> Error {
    Error::ReadDBError(std::io::Error::new(std::io::ErrorKind::NotFound, "missing"))
}

fn parse_error() -> Error {
    Error::ParseDBError(serde_json::from_str::<u8>("not json").unwrap_err())
}

#[test]
fn gather_succeeds_when_every_load_does() {
    let data = compendium();
    let r = gather(
        Ok(data.characters.clone()),
        Ok(data.skills.clone()),
        Ok(data.weapons.clone()),
        Ok(data.armor.clone()),
        Ok(data.items.clone()),
    );
    let c = r.unwrap();
    assert_eq!(c.characters, data.characters);
    assert_eq!(c.items, data.items);
}

#[test]
fn gather_fails_with_first_error() {
    let data = compendium();
    let r = gather(Ok(data.characters.clone()), Err(parse_error()), Ok(vec![]), Err(io_error()), Ok(vec![]));
    assert!(matches!(r, Err(Error::ParseDBError(_))));
    let r = gather(Ok(vec![]), Ok(vec![]), Ok(vec![]), Ok(vec![]), Err(io_error()));
    assert!(matches!(r, Err(Error::ReadDBError(_))));
    let r = gather(Err(io_error()), Err(parse_error()), Ok(vec![]), Ok(vec![]), Ok(vec![]));
    assert!(matches!(r, Err(Error::ReadDBError(_))));
}
