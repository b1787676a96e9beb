use vstd::prelude::*;
use crate::records::Record;

verus! {

/// The first record of `s` that carries `id`, if any.
pub open spec fn lookup<T: Record>(s: Seq<T>, id: usize) -> Option<T>
    decreases s.len(),
{
    if s.len() == 0 {
        None
    } else if s[0].key() == id {
        Some(s[0])
    } else {
        lookup(s.drop_first(), id)
    }
}

/// The records that `refs` point at, in the order of `refs`: each id
/// contributes the first record of `target` that carries it, or nothing
/// when no record does.
pub open spec fn projected<T: Record>(refs: Seq<usize>, target: Seq<T>) -> Seq<T>
    decreases refs.len(),
{
    if refs.len() == 0 {
        Seq::empty()
    } else {
        let rest = projected(refs.drop_last(), target);
        match lookup(target, refs.last()) {
            Some(r) => rest.push(r),
            None => rest,
        }
    }
}

/// The position of the first record of `target` that carries `id`.
pub fn find_position<T: Record>(target: &Vec<T>, id: usize) -> (r: Option<usize>)
    ensures
        match r {
            Some(j) => j < target@.len() && lookup(target@, id) == Some(target@[j as int]),
            None => lookup(target@, id) is None,
        },
{
    let mut j: usize = 0;
    assert(target@.subrange(0, target@.len() as int) =~= target@);
    while j < target.len()
        invariant
            j <= target@.len(),
            lookup(target@, id) == lookup(target@.subrange(j as int, target@.len() as int), id),
        decreases target@.len() - j,
    {
        let ghost tail = target@.subrange(j as int, target@.len() as int);
        assert(tail.drop_first() =~= target@.subrange(j + 1, target@.len() as int));
        assert(tail[0] == target@[j as int]);
        if target[j].id() == id {
            return Some(j);
        }
        j = j + 1;
    }
    assert(target@.subrange(j as int, target@.len() as int).len() == 0);
    None
}

/// The records of `target` that `refs` point at, in the order of `refs`.
/// Ids that no record carries are skipped, and a repeated id gives its
/// record once per occurrence.
pub fn project<'a, T: Record>(refs: &Vec<usize>, target: &'a Vec<T>) -> (r: Vec<&'a T>)
    ensures
        r@.len() == projected(refs@, target@).len(),
        forall|k: int| 0 <= k < r@.len() ==> *r@[k] == projected(refs@, target@)[k],
{
    let mut r: Vec<&'a T> = Vec::new();
    let mut i: usize = 0;
    while i < refs.len()
        invariant
            i <= refs@.len(),
            r@.len() == projected(refs@.subrange(0, i as int), target@).len(),
            forall|k: int|
                0 <= k < r@.len() ==> *r@[k] == projected(refs@.subrange(0, i as int), target@)[k],
        decreases refs@.len() - i,
    {
        let ghost before = refs@.subrange(0, i as int);
        let ghost after = refs@.subrange(0, i + 1);
        assert(after.drop_last() =~= before);
        assert(after.last() == refs@[i as int]);
        match find_position(target, refs[i]) {
            Some(j) => {
                r.push(&target[j]);
            },
            None => {},
        }
        i = i + 1;
    }
    assert(refs@.subrange(0, refs@.len() as int) =~= refs@);
    r
}

/// A record found by id carries that id and is one of the collection's.
pub proof fn lemma_lookup_found<T: Record>(s: Seq<T>, id: usize)
    requires
        lookup(s, id) is Some,
    ensures
        lookup(s, id)->0.key() == id,
        s.contains(lookup(s, id)->0),
    decreases s.len(),
{
    if s[0].key() != id {
        lemma_lookup_found(s.drop_first(), id);
        let x = lookup(s, id)->0;
        let j = choose|j: int| 0 <= j < s.drop_first().len() && s.drop_first()[j] == x;
        assert(s[j + 1] == x);
    } else {
        assert(s[0] == lookup(s, id)->0);
    }
}

/// Projecting two reference lists one after the other gives the two
/// projections one after the other.
pub proof fn lemma_projected_concat<T: Record>(a: Seq<usize>, b: Seq<usize>, target: Seq<T>)
    ensures
        projected(a + b, target) == projected(a, target) + projected(b, target),
    decreases b.len(),
{
    if b.len() == 0 {
        assert(a + b =~= a);
        assert(projected(a, target) + projected(b, target) =~= projected(a, target));
    } else {
        lemma_projected_concat(a, b.drop_last(), target);
        assert((a + b).drop_last() =~= a + b.drop_last());
        assert((a + b).last() == b.last());
        match lookup(target, b.last()) {
            Some(x) => {
                assert(projected(a, target) + projected(b.drop_last(), target).push(x)
                    =~= (projected(a, target) + projected(b.drop_last(), target)).push(x));
            },
            None => {},
        }
    }
}

/// When every reference resolves, the projection lists one record per
/// reference, in the order of the references, whatever the order of the
/// collection: the record at position `k` is the one that reference `k`
/// names.
pub proof fn lemma_projection_follows_references<T: Record>(refs: Seq<usize>, target: Seq<T>)
    requires
        forall|k: int| 0 <= k < refs.len() ==> lookup(target, #[trigger] refs[k]) is Some,
    ensures
        projected(refs, target).len() == refs.len(),
        forall|k: int|
            0 <= k < refs.len() ==> Some(#[trigger] projected(refs, target)[k]) == lookup(
                target,
                refs[k],
            ),
        forall|k: int| 0 <= k < refs.len() ==> (#[trigger] projected(refs, target)[k]).key() == refs[k],
    decreases refs.len(),
{
    if refs.len() > 0 {
        let init = refs.drop_last();
        assert forall|k: int| 0 <= k < init.len() implies lookup(target, #[trigger] init[k]) is Some by {
            assert(init[k] == refs[k]);
        }
        lemma_projection_follows_references(init, target);
        assert(lookup(target, refs[refs.len() - 1]) is Some);
        assert forall|k: int| 0 <= k < refs.len() implies (#[trigger] projected(refs, target)[k]).key()
            == refs[k] by {
            lemma_lookup_found(target, refs[k]);
            if k < init.len() {
                assert(init[k] == refs[k]);
            }
        }
    }
}

/// A reference that no record carries adds nothing to the projection: no
/// placeholder takes its place.
pub proof fn lemma_projection_skips_dangling<T: Record>(
    a: Seq<usize>,
    id: usize,
    b: Seq<usize>,
    target: Seq<T>,
)
    requires
        lookup(target, id) is None,
    ensures
        projected(a + seq![id] + b, target) == projected(a + b, target),
{
    lemma_projected_concat(a + seq![id], b, target);
    lemma_projected_concat(a, seq![id], target);
    lemma_projected_concat(a, b, target);
    assert(seq![id].drop_last() =~= Seq::<usize>::empty());
    assert(projected(Seq::<usize>::empty(), target) =~= Seq::<T>::empty());
    assert(seq![id].last() == id);
    assert(projected(seq![id], target) =~= Seq::<T>::empty());
    assert(projected(a, target) + projected(seq![id], target) =~= projected(a, target));
}

/// A reference repeated twice gives its record twice: the projection does
/// not remove duplicates.
pub proof fn lemma_projection_keeps_duplicates<T: Record>(refs: Seq<usize>, id: usize, target: Seq<T>)
    requires
        lookup(target, id) is Some,
    ensures
        projected(refs + seq![id, id], target) == projected(refs, target) + seq![
            lookup(target, id)->0,
            lookup(target, id)->0,
        ],
{
    let x = lookup(target, id)->0;
    lemma_projected_concat(refs, seq![id, id], target);
    assert(seq![id, id].drop_last() =~= seq![id]);
    assert(seq![id].drop_last() =~= Seq::<usize>::empty());
    assert(projected(Seq::<usize>::empty(), target) =~= Seq::<T>::empty());
    assert(seq![id].last() == id);
    assert(seq![id, id].last() == id);
    assert(projected(seq![id], target) =~= seq![x]);
    assert(projected(seq![id, id], target) =~= seq![x, x]);
}

} // verus!
