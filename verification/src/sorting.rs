//! Ordering lists of texts.
//!
//! A text is ordered by a key: a sequence of numbers.  Keys are compared
//! position by position, and a key that is the beginning of another is the
//! smaller one.  Sorting is stable: texts with equal keys keep their order.
use crate::text::texts;
use vstd::prelude::*;

verus! {

/// Whether key `a` is smaller than key `b`.
pub open spec fn key_less(a: Seq<u32>, b: Seq<u32>) -> bool
    decreases a.len(),
{
    if b.len() == 0 {
        false
    } else if a.len() == 0 {
        true
    } else if a[0] != b[0] {
        a[0] < b[0]
    } else {
        key_less(a.drop_first(), b.drop_first())
    }
}

/// Whether a text with key `a` goes before a text with key `b`.
pub open spec fn goes_before(a: Seq<u32>, b: Seq<u32>, descending: bool) -> bool {
    if descending {
        key_less(b, a)
    } else {
        key_less(a, b)
    }
}

/// `sorted` with `x` put in before the first text that `x` goes before, or at
/// the end where there is none.
pub open spec fn inserted(
    sorted: Seq<Seq<char>>,
    x: Seq<char>,
    key: spec_fn(Seq<char>) -> Seq<u32>,
    descending: bool,
) -> Seq<Seq<char>>
    decreases sorted.len(),
{
    if sorted.len() == 0 {
        seq![x]
    } else if goes_before(key(x), key(sorted[0]), descending) {
        seq![x] + sorted
    } else {
        seq![sorted[0]] + inserted(sorted.drop_first(), x, key, descending)
    }
}

/// `items` in the order of their keys; texts with equal keys stay in the
/// order in which `items` holds them.
pub open spec fn sorted_by_key(
    items: Seq<Seq<char>>,
    key: spec_fn(Seq<char>) -> Seq<u32>,
    descending: bool,
) -> Seq<Seq<char>>
    decreases items.len(),
{
    if items.len() == 0 {
        Seq::<Seq<char>>::empty()
    } else {
        inserted(sorted_by_key(items.drop_last(), key, descending), items.last(), key, descending)
    }
}

/// `items` without each text that equals the one before it.
pub open spec fn without_repeats(items: Seq<Seq<char>>) -> Seq<Seq<char>>
    decreases items.len(),
{
    if items.len() == 0 {
        items
    } else {
        let before = without_repeats(items.drop_last());
        if items.len() >= 2 && items[items.len() - 2] == items.last() {
            before
        } else {
            before.push(items.last())
        }
    }
}

/// Whether key `a` is smaller than key `b`.
pub fn is_key_less(a: &Vec<u32>, b: &Vec<u32>) -> (r: bool)
    ensures
        r == key_less(a@, b@),
{
    let mut i: usize = 0;
    proof {
        assert(a@.skip(0) == a@);
        assert(b@.skip(0) == b@);
    }
    while i < a.len() && i < b.len()
        invariant
            i <= a@.len(),
            i <= b@.len(),
            key_less(a@, b@) == key_less(a@.skip(i as int), b@.skip(i as int)),
        decreases a@.len() - i,
    {
        proof {
            assert(a@.skip(i as int).drop_first() == a@.skip(i + 1));
            assert(b@.skip(i as int).drop_first() == b@.skip(i + 1));
            assert(a@.skip(i as int)[0] == a@[i as int]);
            assert(b@.skip(i as int)[0] == b@[i as int]);
        }
        if a[i] != b[i] {
            return a[i] < b[i];
        }
        i += 1;
    }
    i < b.len()
}

/// Whether a text with key `a` goes before a text with key `b`.
pub fn is_before(a: &Vec<u32>, b: &Vec<u32>, descending: bool) -> (r: bool)
    ensures
        r == goes_before(a@, b@, descending),
{
    if descending {
        is_key_less(b, a)
    } else {
        is_key_less(a, b)
    }
}

/// Inserting at the first position before which `x` goes.
pub proof fn lemma_inserted_at(
    sorted: Seq<Seq<char>>,
    x: Seq<char>,
    key: spec_fn(Seq<char>) -> Seq<u32>,
    descending: bool,
    p: int,
)
    requires
        0 <= p <= sorted.len(),
        forall|j: int| 0 <= j < p ==> !goes_before(key(x), key(#[trigger] sorted[j]), descending),
        p < sorted.len() ==> goes_before(key(x), key(sorted[p]), descending),
    ensures
        inserted(sorted, x, key, descending) == sorted.insert(p, x),
    decreases sorted.len(),
{
    if sorted.len() == 0 {
        assert(sorted.insert(0, x) =~= seq![x]);
    } else if p == 0 {
        assert(sorted.insert(0, x) =~= seq![x] + sorted);
    } else {
        assert(!goes_before(key(x), key(sorted[0]), descending));
        let rest = sorted.drop_first();
        assert forall|j: int| 0 <= j < p - 1 implies !goes_before(
            key(x),
            key(#[trigger] rest[j]),
            descending,
        ) by {
            assert(rest[j] == sorted[j + 1]);
        }
        lemma_inserted_at(rest, x, key, descending, p - 1);
        assert(sorted.insert(p, x) =~= seq![sorted[0]] + rest.insert(p - 1, x));
    }
}

/// Sorts `items` by the keys in `keys`, where `keys[i]` is the key of
/// `items[i]`.
pub(crate) fn sort_by_keys(
    items: Vec<String>,
    keys: Vec<Vec<u32>>,
    descending: bool,
    Ghost(key): Ghost<spec_fn(Seq<char>) -> Seq<u32>>,
) -> (sorted: Vec<String>)
    requires
        keys@.len() == items@.len(),
        forall|i: int| 0 <= i < items@.len() ==> (#[trigger] keys@[i])@ == key(items@[i]@),
    ensures
        texts(sorted@) == sorted_by_key(texts(items@), key, descending),
{
    let mut sorted: Vec<String> = Vec::new();
    let mut sorted_keys: Vec<Vec<u32>> = Vec::new();
    let mut i: usize = 0;
    proof {
        assert(texts(items@).take(0) =~= Seq::<Seq<char>>::empty());
        assert(texts(sorted@) =~= Seq::<Seq<char>>::empty());
    }
    while i < items.len()
        invariant
            i <= items@.len(),
            keys@.len() == items@.len(),
            forall|j: int| 0 <= j < items@.len() ==> (#[trigger] keys@[j])@ == key(items@[j]@),
            sorted_keys@.len() == sorted@.len(),
            forall|j: int| 0 <= j < sorted@.len() ==> (#[trigger] sorted_keys@[j])@ == key(
                sorted@[j]@,
            ),
            texts(sorted@) == sorted_by_key(texts(items@).take(i as int), key, descending),
        decreases items@.len() - i,
    {
        let mut p: usize = 0;
        while p < sorted.len() && !is_before(&keys[i], &sorted_keys[p], descending)
            invariant
                i < items@.len(),
                keys@.len() == items@.len(),
                keys@[i as int]@ == key(items@[i as int]@),
                p <= sorted@.len(),
                sorted_keys@.len() == sorted@.len(),
                forall|j: int| 0 <= j < sorted@.len() ==> (#[trigger] sorted_keys@[j])@ == key(
                    sorted@[j]@,
                ),
                forall|j: int|
                    0 <= j < p ==> !goes_before(
                        key(items@[i as int]@),
                        key(#[trigger] texts(sorted@)[j]),
                        descending,
                    ),
            decreases sorted@.len() - p,
        {
            assert(texts(sorted@)[p as int] == sorted@[p as int]@);
            p += 1;
        }
        proof {
            let x = items@[i as int]@;
            if p < sorted@.len() {
                assert(texts(sorted@)[p as int] == sorted@[p as int]@);
            }
            lemma_inserted_at(texts(sorted@), x, key, descending, p as int);
            let longer = texts(items@).take(i + 1);
            assert(longer.drop_last() == texts(items@).take(i as int));
            assert(longer.last() == x);
        }
        let ghost before = texts(sorted@);
        sorted.insert(p, items[i].clone());
        sorted_keys.insert(p, keys[i].clone());
        proof {
            assert(texts(sorted@) =~= before.insert(p as int, items@[i as int]@));
            assert(sorted_keys@[p as int]@ =~= keys@[i as int]@);
            assert forall|j: int| 0 <= j < sorted@.len() implies (#[trigger] sorted_keys@[j])@
                == key(sorted@[j]@) by {
                if j == p {
                } else if j < p {
                } else {
                }
            }
        }
        i += 1;
    }
    assert(texts(items@).take(items@.len() as int) == texts(items@));
    sorted
}

/// Removes each text that equals the one before it.
pub fn dedup(items: &Vec<String>) -> (kept: Vec<String>)
    ensures
        texts(kept@) == without_repeats(texts(items@)),
{
    let mut kept: Vec<String> = Vec::new();
    let mut i: usize = 0;
    proof {
        assert(texts(items@).take(0) =~= Seq::<Seq<char>>::empty());
        assert(texts(kept@) =~= Seq::<Seq<char>>::empty());
    }
    while i < items.len()
        invariant
            i <= items@.len(),
            texts(kept@) == without_repeats(texts(items@).take(i as int)),
        decreases items@.len() - i,
    {
        proof {
            let longer = texts(items@).take(i + 1);
            assert(longer.drop_last() == texts(items@).take(i as int));
            assert(longer.last() == items@[i as int]@);
            if i > 0 {
                assert(longer[longer.len() - 2] == items@[i - 1]@);
            }
        }
        let ghost before = texts(kept@);
        if i > 0 && items[i - 1] == items[i] {
        } else {
            kept.push(items[i].clone());
            assert(texts(kept@) =~= before.push(items@[i as int]@));
        }
        i += 1;
    }
    assert(texts(items@).take(items@.len() as int) == texts(items@));
    kept
}

// --------------------------------------------------------------------- laws

/// No key is smaller than itself.
pub proof fn lemma_key_less_irreflexive(a: Seq<u32>)
    ensures
        !key_less(a, a),
    decreases a.len(),
{
    if a.len() > 0 {
        lemma_key_less_irreflexive(a.drop_first());
    }
}

/// A key smaller than a second that is smaller than a third is smaller than
/// the third.
pub proof fn lemma_key_less_transitive(a: Seq<u32>, b: Seq<u32>, c: Seq<u32>)
    requires
        key_less(a, b),
        key_less(b, c),
    ensures
        key_less(a, c),
    decreases a.len(),
{
    if a.len() > 0 && b.len() > 0 && c.len() > 0 {
        if a[0] == b[0] && b[0] == c[0] {
            lemma_key_less_transitive(a.drop_first(), b.drop_first(), c.drop_first());
        }
    }
}

/// Of two different keys one is smaller than the other.
pub proof fn lemma_key_less_total(a: Seq<u32>, b: Seq<u32>)
    ensures
        key_less(a, b) || key_less(b, a) || a == b,
    decreases a.len(),
{
    if a.len() == 0 || b.len() == 0 {
        if a.len() == 0 && b.len() == 0 {
            assert(a =~= b);
        }
    } else if a[0] == b[0] {
        lemma_key_less_total(a.drop_first(), b.drop_first());
        if a.drop_first() == b.drop_first() {
            assert(a =~= seq![a[0]] + a.drop_first());
            assert(b =~= seq![b[0]] + b.drop_first());
        }
    }
}

/// Whether no text of `items` goes before a text that stands earlier.
pub open spec fn is_ordered(
    items: Seq<Seq<char>>,
    key: spec_fn(Seq<char>) -> Seq<u32>,
    descending: bool,
) -> bool {
    forall|i: int, j: int|
        0 <= i < j < items.len() ==> !goes_before(key(items[j]), key(items[i]), descending)
}

proof fn lemma_inserted_holds_the_same(
    sorted: Seq<Seq<char>>,
    x: Seq<char>,
    key: spec_fn(Seq<char>) -> Seq<u32>,
    descending: bool,
)
    ensures
        inserted(sorted, x, key, descending).to_multiset() == sorted.to_multiset().insert(x),
        inserted(sorted, x, key, descending).len() == sorted.len() + 1,
        forall|e: Seq<char>|
            #[trigger] inserted(sorted, x, key, descending).contains(e) ==> e == x
                || sorted.contains(e),
    decreases sorted.len(),
{
    broadcast use vstd::seq_lib::group_to_multiset_ensures;

    let result = inserted(sorted, x, key, descending);
    if sorted.len() == 0 {
        assert(sorted =~= Seq::<Seq<char>>::empty());
        assert(result =~= Seq::<Seq<char>>::empty().push(x));
    } else if goes_before(key(x), key(sorted[0]), descending) {
        assert(result =~= sorted.insert(0, x));
        sorted.to_multiset_ensures();
        assert forall|e: Seq<char>| result.contains(e) implies e == x || sorted.contains(e) by {
            let i = choose|i: int| 0 <= i < result.len() && result[i] == e;
            if i > 0 {
                assert(sorted[i - 1] == e);
            }
        }
    } else {
        let rest = sorted.drop_first();
        let tail = inserted(rest, x, key, descending);
        lemma_inserted_holds_the_same(rest, x, key, descending);
        assert(result =~= tail.insert(0, sorted[0]));
        assert(sorted =~= rest.insert(0, sorted[0]));
        assert(result.to_multiset() =~= sorted.to_multiset().insert(x));
        assert forall|e: Seq<char>| result.contains(e) implies e == x || sorted.contains(e) by {
            let i = choose|i: int| 0 <= i < result.len() && result[i] == e;
            if i > 0 {
                assert(tail[i - 1] == e);
                assert(tail.contains(e));
                if e != x {
                    assert(rest.contains(e));
                    let k = choose|k: int| 0 <= k < rest.len() && rest[k] == e;
                    assert(rest[k] == sorted[k + 1]);
                    assert(sorted[k + 1] == e);
                }
            } else {
                assert(sorted[0] == e);
            }
        }
    }
}

proof fn lemma_inserted_is_ordered(
    sorted: Seq<Seq<char>>,
    x: Seq<char>,
    key: spec_fn(Seq<char>) -> Seq<u32>,
    descending: bool,
)
    requires
        is_ordered(sorted, key, descending),
    ensures
        is_ordered(inserted(sorted, x, key, descending), key, descending),
    decreases sorted.len(),
{
    let result = inserted(sorted, x, key, descending);
    if sorted.len() == 0 {
    } else if goes_before(key(x), key(sorted[0]), descending) {
        assert(result =~= seq![x] + sorted);
        assert forall|i: int, j: int| 0 <= i < j < result.len() implies !goes_before(
            key(result[j]),
            key(result[i]),
            descending,
        ) by {
            if i == 0 {
                let e = sorted[j - 1];
                if goes_before(key(e), key(x), descending) {
                    if descending {
                        lemma_key_less_transitive(key(sorted[0]), key(x), key(e));
                    } else {
                        lemma_key_less_transitive(key(e), key(x), key(sorted[0]));
                    }
                    if j - 1 == 0 {
                        lemma_key_less_irreflexive(key(e));
                    } else {
                        assert(!goes_before(key(sorted[j - 1]), key(sorted[0]), descending));
                    }
                }
            } else {
                assert(!goes_before(key(sorted[j - 1]), key(sorted[i - 1]), descending));
            }
        }
    } else {
        let rest = sorted.drop_first();
        let tail = inserted(rest, x, key, descending);
        assert(is_ordered(rest, key, descending)) by {
            assert forall|i: int, j: int| 0 <= i < j < rest.len() implies !goes_before(
                key(rest[j]),
                key(rest[i]),
                descending,
            ) by {
                assert(!goes_before(key(sorted[j + 1]), key(sorted[i + 1]), descending));
            }
        }
        lemma_inserted_is_ordered(rest, x, key, descending);
        lemma_inserted_holds_the_same(rest, x, key, descending);
        assert(result =~= seq![sorted[0]] + tail);
        assert forall|i: int, j: int| 0 <= i < j < result.len() implies !goes_before(
            key(result[j]),
            key(result[i]),
            descending,
        ) by {
            if i == 0 {
                let e = tail[j - 1];
                assert(tail.contains(e));
                if e != x {
                    assert(rest.contains(e));
                    let k = choose|k: int| 0 <= k < rest.len() && rest[k] == e;
                    assert(rest[k] == sorted[k + 1]);
                    assert(!goes_before(key(sorted[k + 1]), key(sorted[0]), descending));
                }
            } else {
                assert(!goes_before(key(tail[j - 1]), key(tail[i - 1]), descending));
            }
        }
    }
}

/// Sorting rearranges and orders.
///
/// The sorted list holds the same texts as the given one, each as often, and
/// none of them goes before a text that stands earlier in it.
pub proof fn law_sorting_orders_the_same_texts(
    items: Seq<Seq<char>>,
    key: spec_fn(Seq<char>) -> Seq<u32>,
    descending: bool,
)
    ensures
        sorted_by_key(items, key, descending).to_multiset() == items.to_multiset(),
        sorted_by_key(items, key, descending).len() == items.len(),
        is_ordered(sorted_by_key(items, key, descending), key, descending),
    decreases items.len(),
{
    broadcast use vstd::seq_lib::group_to_multiset_ensures;

    if items.len() == 0 {
        assert(items =~= Seq::<Seq<char>>::empty());
    } else {
        let before = sorted_by_key(items.drop_last(), key, descending);
        law_sorting_orders_the_same_texts(items.drop_last(), key, descending);
        lemma_inserted_holds_the_same(before, items.last(), key, descending);
        lemma_inserted_is_ordered(before, items.last(), key, descending);
        assert(items =~= items.drop_last().push(items.last()));
    }
}

/// A list that is ordered already stays as it is.
pub proof fn law_sorting_keeps_an_ordered_list(
    items: Seq<Seq<char>>,
    key: spec_fn(Seq<char>) -> Seq<u32>,
    descending: bool,
)
    requires
        is_ordered(items, key, descending),
    ensures
        sorted_by_key(items, key, descending) == items,
    decreases items.len(),
{
    if items.len() > 0 {
        let front = items.drop_last();
        assert(is_ordered(front, key, descending)) by {
            assert forall|i: int, j: int| 0 <= i < j < front.len() implies !goes_before(
                key(front[j]),
                key(front[i]),
                descending,
            ) by {
                assert(!goes_before(key(items[j]), key(items[i]), descending));
            }
        }
        law_sorting_keeps_an_ordered_list(front, key, descending);
        assert forall|j: int| 0 <= j < front.len() implies !goes_before(
            key(items.last()),
            key(#[trigger] front[j]),
            descending,
        ) by {
            assert(!goes_before(key(items[items.len() - 1]), key(items[j]), descending));
        }
        lemma_inserted_at(front, items.last(), key, descending, front.len() as int);
        assert(front.insert(front.len() as int, items.last()) =~= items);
    }
}

/// Whether a key tells texts apart: different texts have different keys.
pub open spec fn tells_apart(key: spec_fn(Seq<char>) -> Seq<u32>) -> bool {
    forall|a: Seq<char>, b: Seq<char>| #[trigger] key(a) == #[trigger] key(b) ==> a == b
}

proof fn lemma_without_repeats_shape(items: Seq<Seq<char>>)
    ensures
        without_repeats(items).len() <= items.len(),
        items.len() > 0 ==> without_repeats(items).len() > 0 && without_repeats(items).last()
            == items.last(),
        forall|e: Seq<char>| #[trigger] without_repeats(items).contains(e) ==> items.contains(e),
        forall|e: Seq<char>| #[trigger] items.contains(e) ==> without_repeats(items).contains(e),
        forall|k: int|
            0 <= k < without_repeats(items).len() - 1 ==> #[trigger] without_repeats(items)[k]
                != without_repeats(items)[k + 1],
    decreases items.len(),
{
    if items.len() > 0 {
        let front = items.drop_last();
        let before = without_repeats(front);
        let result = without_repeats(items);
        lemma_without_repeats_shape(front);
        if items.len() >= 2 {
            assert(front.last() == items[items.len() - 2]);
        }
        assert forall|e: Seq<char>| #[trigger] result.contains(e) implies items.contains(e) by {
            let i = choose|i: int| 0 <= i < result.len() && result[i] == e;
            if i < before.len() {
                assert(before[i] == e);
                assert(before.contains(e));
                assert(front.contains(e));
                let k = choose|k: int| 0 <= k < front.len() && front[k] == e;
                assert(items[k] == e);
            } else {
                assert(items[items.len() - 1] == e);
            }
        }
        assert forall|e: Seq<char>| #[trigger] items.contains(e) implies result.contains(e) by {
            let i = choose|i: int| 0 <= i < items.len() && items[i] == e;
            if i < front.len() {
                assert(front[i] == e);
                assert(front.contains(e));
                assert(before.contains(e));
                let k = choose|k: int| 0 <= k < before.len() && before[k] == e;
                assert(result[k] == e);
            } else if result.len() == before.len() {
                assert(before.last() == e);
                assert(result[result.len() - 1] == e);
            } else {
                assert(result[result.len() - 1] == e);
            }
        }
    }
}

proof fn lemma_without_repeats_is_ordered(
    items: Seq<Seq<char>>,
    key: spec_fn(Seq<char>) -> Seq<u32>,
    descending: bool,
)
    requires
        is_ordered(items, key, descending),
    ensures
        is_ordered(without_repeats(items), key, descending),
    decreases items.len(),
{
    if items.len() > 0 {
        let front = items.drop_last();
        let before = without_repeats(front);
        let result = without_repeats(items);
        assert(is_ordered(front, key, descending)) by {
            assert forall|i: int, j: int| 0 <= i < j < front.len() implies !goes_before(
                key(front[j]),
                key(front[i]),
                descending,
            ) by {
                assert(!goes_before(key(items[j]), key(items[i]), descending));
            }
        }
        lemma_without_repeats_is_ordered(front, key, descending);
        lemma_without_repeats_shape(front);
        assert forall|i: int, j: int| 0 <= i < j < result.len() implies !goes_before(
            key(result[j]),
            key(result[i]),
            descending,
        ) by {
            if j < before.len() {
                assert(!goes_before(key(before[j]), key(before[i]), descending));
            } else {
                let e = before[i];
                assert(before.contains(e));
                assert(front.contains(e));
                let k = choose|k: int| 0 <= k < front.len() && front[k] == e;
                assert(!goes_before(key(items[items.len() - 1]), key(items[k]), descending));
            }
        }
    }
}

/// Sorting, then removing repeats, leaves each text once.
///
/// In a list that is ordered by a key that tells texts apart, equal texts
/// stand next to each other; once each text that equals the one before it
/// is removed, no text occurs twice.
pub proof fn law_ordered_list_without_repeats_is_a_set(
    items: Seq<Seq<char>>,
    key: spec_fn(Seq<char>) -> Seq<u32>,
    descending: bool,
)
    requires
        is_ordered(items, key, descending),
        tells_apart(key),
    ensures
        without_repeats(items).no_duplicates(),
        forall|e: Seq<char>| without_repeats(items).contains(e) <==> items.contains(e),
{
    let result = without_repeats(items);
    lemma_without_repeats_shape(items);
    lemma_without_repeats_is_ordered(items, key, descending);
    assert forall|i: int, j: int| 0 <= i < j < result.len() implies result[i] != result[j] by {
        if result[i] == result[j] {
            // the text after `result[i]` lies between two equal texts
            let a = key(result[i]);
            let b = key(result[i + 1]);
            assert(!goes_before(b, a, descending));
            if i + 1 < j {
                assert(!goes_before(key(result[j]), b, descending));
            }
            lemma_key_less_total(a, b);
            lemma_key_less_irreflexive(a);
            assert(a == b);
            assert(result[i] == result[i + 1]);
        }
    }
}

/// The key that orders texts character by character tells texts apart.
pub proof fn lemma_characters_tell_apart(a: Seq<char>, b: Seq<char>)
    requires
        a.map_values(|c: char| c as u32) == b.map_values(|c: char| c as u32),
    ensures
        a == b,
{
    let ka = a.map_values(|c: char| c as u32);
    let kb = b.map_values(|c: char| c as u32);
    assert(a.len() == ka.len());
    assert(b.len() == kb.len());
    assert forall|i: int| 0 <= i < a.len() implies a[i] == b[i] by {
        assert(ka[i] == a[i] as u32);
        assert(kb[i] == b[i] as u32);
        vstd::utf8::char_u32_cast(a[i], ka[i]);
        vstd::utf8::char_u32_cast(b[i], kb[i]);
    }
    assert(a =~= b);
}

} // verus!
