//! Joining loaded rows by id, as the list handlers do: the ids to load, and
//! for each row the first loaded row whose id it names.

use vstd::prelude::*;

verus! {

/// Whether `r` is the index of the first element of `s` equal to `x`, or
/// `None` when no element is.
pub open spec fn is_first_match(s: Seq<u128>, x: u128, r: Option<usize>) -> bool {
    match r {
        Some(j) => j < s.len() && s[j as int] == x && forall|k: int| 0 <= k < j ==> s[k] != x,
        None => forall|k: int| 0 <= k < s.len() ==> s[k] != x,
    }
}

/// A row attaches to at most one loaded row: the first with its id. That
/// row has the id, no earlier row has it, and no row is attached exactly
/// when none has it.
pub proof fn lemma_first_match_is_the_first(s: Seq<u128>, x: u128, r1: Option<usize>, r2: Option<usize>)
    requires
        is_first_match(s, x, r1),
        is_first_match(s, x, r2),
    ensures
        r1 == r2,
        r1 is None <==> !s.contains(x),
        r1 matches Some(j) ==> s[j as int] == x && !s.subrange(0, j as int).contains(x),
{
    match (r1, r2) {
        (Some(a), Some(b)) => {
            if a < b {
                assert(s[a as int] == x);
            } else if b < a {
                assert(s[b as int] == x);
            }
        },
        (Some(a), None) => {
            assert(s[a as int] == x);
        },
        (None, Some(b)) => {
            assert(s[b as int] == x);
        },
        (None, None) => {},
    }
    if let Some(j) = r1 {
        assert(s.contains(x)) by {
            assert(s[j as int] == x);
        }
        if s.subrange(0, j as int).contains(x) {
            let k = choose|k: int| 0 <= k < j && s.subrange(0, j as int)[k] == x;
            assert(s[k] == x);
        }
    } else {
        if s.contains(x) {
            let k = choose|k: int| 0 <= k < s.len() && s[k] == x;
            assert(s[k] != x);
        }
    }
}

/// The index of the first element of `ids` equal to `id`.
pub fn first_match(ids: &Vec<u128>, id: u128) -> (r: Option<usize>)
    ensures
        is_first_match(ids@, id, r),
{
    let mut i: usize = 0;
    while i < ids.len()
        invariant
            i <= ids.len(),
            forall|k: int| 0 <= k < i ==> ids@[k] != id,
        decreases ids.len() - i,
    {
        if ids[i] == id {
            return Some(i);
        }
        i = i + 1;
    }
    None
}

/// The ids to load for a list: each id of `ids` once. The handlers collect
/// them through a hash set, whose order is unspecified; this keeps the order
/// of first occurrence.
pub fn distinct_ids(ids: &Vec<u128>) -> (r: Vec<u128>)
    ensures
        r@.no_duplicates(),
        r@.to_set() == ids@.to_set(),
{
    let mut r: Vec<u128> = Vec::new();
    let mut i: usize = 0;
    assert(ids@.subrange(0, 0) =~= Seq::<u128>::empty());
    assert(r@.to_set() =~= ids@.subrange(0, 0).to_set());
    while i < ids.len()
        invariant
            i <= ids.len(),
            r@.no_duplicates(),
            r@.to_set() == ids@.subrange(0, i as int).to_set(),
        decreases ids.len() - i,
    {
        let x = ids[i];
        let ghost prev = r@;
        assert(ids@.subrange(0, i + 1) =~= ids@.subrange(0, i as int).push(x));
        proof {
            ids@.subrange(0, i as int).lemma_push_to_set_commute(x);
        }
        let found = first_match(&r, x);
        match found {
            Some(j) => {
                assert(prev.to_set().contains(x)) by {
                    assert(prev.contains(x));
                }
                assert(r@.to_set() =~= ids@.subrange(0, i + 1).to_set());
            },
            None => {
                r.push(x);
                proof {
                    prev.lemma_push_to_set_commute(x);
                }
                assert(r@.to_set() =~= ids@.subrange(0, i + 1).to_set());
            },
        }
        i = i + 1;
    }
    assert(ids@.subrange(0, ids.len() as int) =~= ids@);
    r
}

/// For each row, the first loaded row whose id it names.
pub fn attach(owner_ids: &Vec<u128>, loaded_ids: &Vec<u128>) -> (r: Vec<Option<usize>>)
    ensures
        r@.len() == owner_ids@.len(),
        forall|i: int| 0 <= i < r@.len() ==> is_first_match(loaded_ids@, owner_ids@[i], #[trigger] r@[i]),
{
    let mut r: Vec<Option<usize>> = Vec::new();
    let mut i: usize = 0;
    while i < owner_ids.len()
        invariant
            i <= owner_ids.len(),
            r@.len() == i,
            forall|k: int| 0 <= k < i ==> is_first_match(loaded_ids@, owner_ids@[k], #[trigger] r@[k]),
        decreases owner_ids.len() - i,
    {
        let m = first_match(loaded_ids, owner_ids[i]);
        r.push(m);
        i = i + 1;
    }
    r
}

/// For each row that names a row by an optional id, the first loaded row
/// with that id; none for a row that names none.
pub fn attach_optional(owner_ids: &Vec<Option<u128>>, loaded_ids: &Vec<u128>) -> (r: Vec<Option<usize>>)
    ensures
        r@.len() == owner_ids@.len(),
        forall|i: int|
            0 <= i < r@.len() ==> match owner_ids@[i] {
                Some(x) => is_first_match(loaded_ids@, x, #[trigger] r@[i]),
                None => r@[i] is None,
            },
{
    let mut r: Vec<Option<usize>> = Vec::new();
    let mut i: usize = 0;
    while i < owner_ids.len()
        invariant
            i <= owner_ids.len(),
            r@.len() == i,
            forall|k: int|
                0 <= k < i ==> match owner_ids@[k] {
                    Some(x) => is_first_match(loaded_ids@, x, #[trigger] r@[k]),
                    None => r@[k] is None,
                },
        decreases owner_ids.len() - i,
    {
        let m = match owner_ids[i] {
            Some(x) => first_match(loaded_ids, x),
            None => None,
        };
        r.push(m);
        i = i + 1;
    }
    r
}

/// For each row, the index of the first loaded row whose id it names, where
/// every named row was loaded (the explore list takes the author of each
/// recording as given).
pub fn attach_required(owner_ids: &Vec<u128>, loaded_ids: &Vec<u128>) -> (r: Vec<usize>)
    requires
        forall|i: int| 0 <= i < owner_ids@.len() ==> loaded_ids@.contains(#[trigger] owner_ids@[i]),
    ensures
        r@.len() == owner_ids@.len(),
        forall|i: int| 0 <= i < r@.len() ==> is_first_match(loaded_ids@, owner_ids@[i], Some(#[trigger] r@[i])),
{
    let mut r: Vec<usize> = Vec::new();
    let mut i: usize = 0;
    while i < owner_ids.len()
        invariant
            i <= owner_ids.len(),
            r@.len() == i,
            forall|k: int| 0 <= k < owner_ids@.len() ==> loaded_ids@.contains(#[trigger] owner_ids@[k]),
            forall|k: int| 0 <= k < i ==> is_first_match(loaded_ids@, owner_ids@[k], Some(#[trigger] r@[k])),
        decreases owner_ids.len() - i,
    {
        let x = owner_ids[i];
        assert(loaded_ids@.contains(owner_ids@[i as int]));
        let m = first_match(loaded_ids, x);
        let j = match m {
            Some(j) => j,
            None => {
                proof {
                    let k = choose|k: int| 0 <= k < loaded_ids@.len() && loaded_ids@[k] == x;
                    assert(loaded_ids@[k] != x);
                }
                0
            },
        };
        r.push(j);
        i = i + 1;
    }
    r
}

/// The ids that rows name, in order, skipping rows that name none.
pub open spec fn present_ids_spec(ids: Seq<Option<u128>>) -> Seq<u128>
    decreases ids.len(),
{
    if ids.len() == 0 {
        Seq::empty()
    } else {
        let rest = present_ids_spec(ids.drop_last());
        match ids.last() {
            Some(x) => rest.push(x),
            None => rest,
        }
    }
}

/// Collects the ids that rows name, in order.
pub fn present_ids(ids: &Vec<Option<u128>>) -> (r: Vec<u128>)
    ensures
        r@ == present_ids_spec(ids@),
{
    let mut r: Vec<u128> = Vec::new();
    let mut i: usize = 0;
    assert(ids@.subrange(0, 0) =~= Seq::<Option<u128>>::empty());
    while i < ids.len()
        invariant
            i <= ids.len(),
            r@ == present_ids_spec(ids@.subrange(0, i as int)),
        decreases ids.len() - i,
    {
        assert(ids@.subrange(0, i + 1).drop_last() =~= ids@.subrange(0, i as int));
        if let Some(x) = ids[i] {
            r.push(x);
        }
        i = i + 1;
    }
    assert(ids@.subrange(0, ids.len() as int) =~= ids@);
    r
}

} // verus!
