use coriolis::projection::{find_position, project};
use coriolis::records::Skill;

fn skill(id: usize, name: &str) -> Skill {
    Skill {
        id,
        name: name.to_string(),
        description: format!("about {}", name),
        category: "general".to_string(),
    }
}

fn ids(r: &[&Skill]) -> Vec<usize> {
    r.iter().map(|s| s.id).collect()
}

#[test]
fn projection_follows_reference_order() {
    let target = vec![skill(10, "ten"), skill(20, "twenty"), skill(30, "thirty")];
    let r = project(&vec![30, 10, 20], &target);
    assert_eq!(ids(&r), vec![30, 10, 20]);
    assert_eq!(r[0].name, "thirty");
    assert_eq!(r[1].name, "ten");
    assert_eq!(r[2].name, "twenty");
}

#[test]
fn projection_skips_dangling_references() {
    let target = vec![skill(10, "ten"), skill(20, "twenty"), skill(30, "thirty")];
    let r = project(&vec![10, 999], &target);
    assert_eq!(r.len(), 1);
    assert_eq!(r[0].id, 10);
    assert_eq!(project(&vec![999], &target).len(), 0);
    assert_eq!(project(&vec![], &target).len(), 0);
    assert_eq!(project(&vec![10], &Vec::<Skill>::new()).len(), 0);
}

#[test]
fn projection_keeps_duplicates() {
    let target = vec![skill(10, "ten"), skill(20, "twenty")];
    let r = project(&vec![10, 10], &target);
    assert_eq!(ids(&r), vec![10, 10]);
    assert_eq!(r[0], r[1]);
}

#[test]
fn projection_takes_first_record_with_an_id() {
    let target = vec![skill(5, "first"), skill(5, "second")];
    let r = project(&vec![5], &target);
    assert_eq!(r.len(), 1);
    assert_eq!(r[0].name, "first");
    assert_eq!(find_position(&target, 5), Some(0));
    assert_eq!(find_position(&target, 6), None);
}

#[test]
fn projection_is_repeatable() {
    let target = vec![skill(1, "a"), skill(2, "b"), skill(3, "c")];
    let refs = vec![3, 4, 1, 3];
    let first = project(&refs, &target);
    let second = project(&refs, &target);
    assert_eq!(first, second);
    assert_eq!(ids(&first), vec![3, 1, 3]);
}
