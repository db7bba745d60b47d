//! Lists that are kept in order, with one item for each key.

use vstd::prelude::*;

verus! {

/// Whether `a` precedes `b` in lexicographic order.
#[verifier::opaque]
pub open spec fn lex_less(a: Seq<u32>, b: Seq<u32>) -> bool
    decreases a.len(),
{
    if b.len() == 0 {
        false
    } else if a.len() == 0 {
        true
    } else if a[0] != b[0] {
        a[0] < b[0]
    } else {
        lex_less(a.skip(1), b.skip(1))
    }
}

/// What has a key by which it is ordered and found.
pub trait Indexed: DeepView + Sized {
    /// The key of an item with these contents.
    spec fn order_key(item: Self::V) -> Seq<u32>;

    /// The key of the item.
    fn key(&self) -> (r: Vec<u32>)
        ensures
            r@ == Self::order_key(self.deep_view()),
    ;
}

/// Whether the keys increase from item to item.
pub open spec fn in_order<T: Indexed>(items: Seq<T::V>) -> bool {
    forall|i: int, j: int|
        #![trigger items[i], items[j]]
        0 <= i < j < items.len() ==> lex_less(T::order_key(items[i]), T::order_key(items[j]))
}

/// `items` with `item` in its place, unless its key is there already.
pub open spec fn insert_absent<T: Indexed>(items: Seq<T::V>, item: T::V) -> Seq<T::V>
    decreases items.len(),
{
    if items.len() == 0 {
        seq![item]
    } else if T::order_key(item) == T::order_key(items[0]) {
        items
    } else if lex_less(T::order_key(item), T::order_key(items[0])) {
        seq![item] + items
    } else {
        seq![items[0]] + insert_absent::<T>(items.skip(1), item)
    }
}

/// The items in the order of their keys; of those with one key, the first.
pub open spec fn sorted_first<T: Indexed>(items: Seq<T::V>) -> Seq<T::V>
    decreases items.len(),
{
    if items.len() == 0 {
        seq![]
    } else {
        insert_absent::<T>(sorted_first::<T>(items.drop_last()), items.last())
    }
}

/// No key precedes itself.
pub proof fn lemma_lex_irreflexive(a: Seq<u32>)
    ensures
        !lex_less(a, a),
    decreases a.len(),
{
    reveal(lex_less);
    if a.len() > 0 {
        lemma_lex_irreflexive(a.skip(1));
    }
}

/// The order of keys carries over.
pub proof fn lemma_lex_transitive(a: Seq<u32>, b: Seq<u32>, c: Seq<u32>)
    requires
        lex_less(a, b),
        lex_less(b, c),
    ensures
        lex_less(a, c),
    decreases a.len(),
{
    reveal(lex_less);
    if a.len() > 0 && b.len() > 0 && c.len() > 0 && a[0] == b[0] && b[0] == c[0] {
        lemma_lex_transitive(a.skip(1), b.skip(1), c.skip(1));
    }
}

/// Of two different keys one precedes the other.
pub proof fn lemma_lex_total(a: Seq<u32>, b: Seq<u32>)
    ensures
        a == b || lex_less(a, b) || lex_less(b, a),
    decreases a.len(),
{
    reveal(lex_less);
    if a.len() > 0 && b.len() > 0 {
        if a[0] == b[0] {
            lemma_lex_total(a.skip(1), b.skip(1));
            if a.skip(1) == b.skip(1) {
                assert(a == seq![a[0]] + a.skip(1));
                assert(b == seq![b[0]] + b.skip(1));
            }
        }
    } else if a.len() == 0 && b.len() == 0 {
        assert(a == b);
    }
}

/// How one key stands to another.
#[derive(Clone, Copy, Debug, PartialEq, Eq, Structural)]
pub enum KeyOrder {
    Before,
    Same,
    After,
}

/// Compares two keys.
pub fn compare_keys(a: &[u32], b: &[u32]) -> (r: KeyOrder)
    ensures
        r == (if a@ == b@ {
            KeyOrder::Same
        } else if lex_less(a@, b@) {
            KeyOrder::Before
        } else {
            KeyOrder::After
        }),
{
    reveal(lex_less);
    let mut i: usize = 0;
    assert(a@.skip(0) == a@ && b@.skip(0) == b@);
    while i < a.len() && i < b.len() && a[i] == b[i]
        invariant
            i <= a@.len(),
            i <= b@.len(),
            forall|j: int| 0 <= j < i ==> a@[j] == b@[j],
            lex_less(a@, b@) == lex_less(a@.skip(i as int), b@.skip(i as int)),
        decreases a@.len() - i,
    {
        reveal(lex_less);
        assert(a@.skip(i as int).skip(1) == a@.skip(i + 1));
        assert(b@.skip(i as int).skip(1) == b@.skip(i + 1));
        i = i + 1;
    }
    let ghost ra = a@.skip(i as int);
    let ghost rb = b@.skip(i as int);
    if i == a.len() && i == b.len() {
        assert(a@ =~= b@);
        KeyOrder::Same
    } else if i == b.len() {
        assert(a@ != b@);
        KeyOrder::After
    } else if i == a.len() {
        assert(a@ != b@);
        KeyOrder::Before
    } else {
        assert(ra[0] == a@[i as int] && rb[0] == b@[i as int]);
        assert(a@ != b@);
        if a[i] < b[i] {
            KeyOrder::Before
        } else {
            KeyOrder::After
        }
    }
}

/// Where [`insert_absent`] puts an item.
proof fn lemma_insert_absent_at<T: Indexed>(items: Seq<T::V>, item: T::V, p: int)
    requires
        in_order::<T>(items),
        0 <= p <= items.len(),
        forall|i: int| 0 <= i < p ==> lex_less(T::order_key(#[trigger] items[i]), T::order_key(item)),
        p < items.len() ==> !lex_less(T::order_key(items[p]), T::order_key(item)),
    ensures
        insert_absent::<T>(items, item) == (if p < items.len() && T::order_key(items[p])
            == T::order_key(item) {
            items
        } else {
            items.insert(p, item)
        }),
    decreases items.len(),
{
    let key = T::order_key(item);
    if items.len() == 0 {
        assert(items.insert(0, item) == seq![item]);
    } else if p == 0 {
        lemma_lex_total(key, T::order_key(items[0]));
        assert(items.insert(0, item) == seq![item] + items);
    } else {
        let first = T::order_key(items[0]);
        lemma_lex_irreflexive(key);
        if lex_less(key, first) {
            lemma_lex_transitive(key, first, key);
        }
        let tail = items.skip(1);
        assert forall|i: int, j: int|
            #![trigger tail[i], tail[j]]
            0 <= i < j < tail.len() implies lex_less(
            T::order_key(tail[i]),
            T::order_key(tail[j]),
        ) by {
            assert(tail[i] == items[i + 1] && tail[j] == items[j + 1]);
        }
        assert forall|i: int| 0 <= i < p - 1 implies lex_less(
            T::order_key(#[trigger] tail[i]),
            key,
        ) by {
            assert(tail[i] == items[i + 1]);
        }
        lemma_insert_absent_at::<T>(tail, item, p - 1);
        if p < items.len() {
            assert(tail[p - 1] == items[p]);
        }
        assert(seq![items[0]] + tail == items);
        assert(seq![items[0]] + tail.insert(p - 1, item) == items.insert(p, item));
    }
}

/// How many items come before a key.
fn place_of<T: Indexed>(items: &Vec<T>, key: &[u32]) -> (p: usize)
    requires
        in_order::<T>(items.deep_view()),
    ensures
        p <= items@.len(),
        forall|i: int|
            0 <= i < p ==> lex_less(T::order_key(#[trigger] items.deep_view()[i]), key@),
        p < items@.len() ==> !lex_less(T::order_key(items.deep_view()[p as int]), key@),
{
    let ghost seen = items.deep_view();
    let mut low: usize = 0;
    let mut high: usize = items.len();
    while low < high
        invariant
            seen == items.deep_view(),
            in_order::<T>(seen),
            low <= high <= items@.len(),
            forall|i: int| 0 <= i < low ==> lex_less(T::order_key(#[trigger] seen[i]), key@),
            high < items@.len() ==> !lex_less(T::order_key(seen[high as int]), key@),
        decreases high - low,
    {
        let middle = low + (high - low) / 2;
        let found = items[middle].key();
        assert(found@ == T::order_key(seen[middle as int]));
        match compare_keys(found.as_slice(), key) {
            KeyOrder::Before => {
                assert forall|i: int| 0 <= i < middle + 1 implies lex_less(
                    T::order_key(#[trigger] seen[i]),
                    key@,
                ) by {
                    if i < middle {
                        lemma_lex_transitive(T::order_key(seen[i]), found@, key@);
                    }
                }
                low = middle + 1;
            },
            _ => {
                proof {
                    lemma_lex_irreflexive(key@);
                }
                high = middle;
            },
        }
    }
    low
}

/// [`insert_absent`] keeps the order, keeps what was there, and adds no more
/// than the one item.
proof fn lemma_insert_absent<T: Indexed>(items: Seq<T::V>, item: T::V)
    requires
        in_order::<T>(items),
    ensures
        in_order::<T>(insert_absent::<T>(items, item)),
        forall|x: T::V|
            #[trigger] items.contains(x) ==> insert_absent::<T>(items, item).contains(x),
        forall|x: T::V| #[trigger]
            insert_absent::<T>(items, item).contains(x) ==> items.contains(x) || (x == item && forall|
                i: int,
            |
                0 <= i < items.len() ==> T::order_key(#[trigger] items[i]) != T::order_key(item)),
        exists|i: int|
            0 <= i < insert_absent::<T>(items, item).len() && T::order_key(
                #[trigger] insert_absent::<T>(items, item)[i],
            ) == T::order_key(item),
    decreases items.len(),
{
    let r = insert_absent::<T>(items, item);
    let key = T::order_key(item);
    if items.len() == 0 {
        assert(r[0] == item);
    } else {
        let first = T::order_key(items[0]);
        if key == first {
            assert(T::order_key(r[0]) == key);
        } else if lex_less(key, first) {
            assert forall|i: int, j: int|
                #![trigger r[i], r[j]]
                0 <= i < j < r.len() implies lex_less(T::order_key(r[i]), T::order_key(r[j])) by {
                assert(r[j] == items[j - 1]);
                if i > 0 {
                    assert(r[i] == items[i - 1]);
                } else if j > 1 {
                    lemma_lex_transitive(key, first, T::order_key(items[j - 1]));
                }
            }
            assert forall|x: T::V| #[trigger] items.contains(x) implies r.contains(x) by {
                let i = items.index_of(x);
                assert(r[i + 1] == x);
            }
            assert forall|x: T::V| #[trigger] r.contains(x) implies items.contains(x) || (x == item
                && forall|i: int|
                0 <= i < items.len() ==> T::order_key(#[trigger] items[i]) != key) by {
                let i = r.index_of(x);
                if i > 0 {
                    assert(items[i - 1] == x);
                } else {
                    assert forall|k: int| 0 <= k < items.len() implies T::order_key(
                        #[trigger] items[k],
                    ) != key by {
                        lemma_lex_irreflexive(key);
                        if k > 0 {
                            lemma_lex_transitive(key, first, T::order_key(items[k]));
                        }
                    }
                }
            }
            assert(r[0] == item);
        } else {
            let tail = items.skip(1);
            let rest = insert_absent::<T>(tail, item);
            assert forall|i: int, j: int|
                #![trigger tail[i], tail[j]]
                0 <= i < j < tail.len() implies lex_less(
                T::order_key(tail[i]),
                T::order_key(tail[j]),
            ) by {
                assert(tail[i] == items[i + 1] && tail[j] == items[j + 1]);
            }
            lemma_insert_absent::<T>(tail, item);
            lemma_lex_total(key, first);
            assert forall|i: int, j: int|
                #![trigger r[i], r[j]]
                0 <= i < j < r.len() implies lex_less(T::order_key(r[i]), T::order_key(r[j])) by {
                assert(r[j] == rest[j - 1]);
                if i > 0 {
                    assert(r[i] == rest[i - 1]);
                } else {
                    assert(rest.contains(rest[j - 1]));
                    if tail.contains(rest[j - 1]) {
                        let k = tail.index_of(rest[j - 1]);
                        assert(items[k + 1] == rest[j - 1]);
                    }
                }
            }
            assert forall|x: T::V| #[trigger] items.contains(x) implies r.contains(x) by {
                let i = items.index_of(x);
                if i == 0 {
                    assert(r[0] == x);
                } else {
                    assert(tail[i - 1] == x);
                    assert(tail.contains(x));
                    let k = rest.index_of(x);
                    assert(r[k + 1] == x);
                }
            }
            assert forall|x: T::V| #[trigger] r.contains(x) implies items.contains(x) || (x == item
                && forall|i: int|
                0 <= i < items.len() ==> T::order_key(#[trigger] items[i]) != key) by {
                let i = r.index_of(x);
                if i == 0 {
                    assert(items[0] == x);
                } else {
                    assert(rest[i - 1] == x);
                    assert(rest.contains(x));
                    if tail.contains(x) {
                        let k = tail.index_of(x);
                        assert(items[k + 1] == x);
                    } else {
                        assert forall|k: int| 0 <= k < items.len() implies T::order_key(
                            #[trigger] items[k],
                        ) != key by {
                            if k > 0 {
                                assert(tail[k - 1] == items[k]);
                            }
                        }
                    }
                }
            }
            let w = choose|i: int|
                0 <= i < rest.len() && T::order_key(#[trigger] rest[i]) == key;
            assert(r[w + 1] == rest[w]);
        }
    }
}

/// Whether `items[i]` is the first item with its key.
pub open spec fn is_first<T: Indexed>(items: Seq<T::V>, i: int) -> bool {
    &&& 0 <= i < items.len()
    &&& forall|k: int| 0 <= k < i ==> T::order_key(#[trigger] items[k]) != T::order_key(items[i])
}

/// Law: the index of a list is in strict order, every item of it is the first
/// of the list with its key, and every key of the list is in it.
pub proof fn law_sorted_first<T: Indexed>(items: Seq<T::V>)
    ensures
        in_order::<T>(sorted_first::<T>(items)),
        forall|x: T::V| #[trigger]
            sorted_first::<T>(items).contains(x) <==> exists|i: int| #[trigger]
                is_first::<T>(items, i) && items[i] == x,
        forall|j: int|
            0 <= j < items.len() ==> exists|i: int|
                0 <= i < sorted_first::<T>(items).len() && T::order_key(
                    #[trigger] sorted_first::<T>(items)[i],
                ) == T::order_key(#[trigger] items[j]),
    decreases items.len(),
{
    let r = sorted_first::<T>(items);
    if items.len() > 0 {
        let head = items.drop_last();
        let last = items.last();
        let n = head.len() as int;
        let before = sorted_first::<T>(head);
        law_sorted_first::<T>(head);
        lemma_insert_absent::<T>(before, last);
        lemma_insert_absent_new::<T>(before, last);
        assert forall|x: T::V| #[trigger] r.contains(x) <==> exists|i: int| #[trigger]
            is_first::<T>(items, i) && items[i] == x by {
            if r.contains(x) {
                if before.contains(x) {
                    let i = choose|i: int| #[trigger] is_first::<T>(head, i) && head[i] == x;
                    lemma_first_in_head::<T>(items, i);
                    assert(is_first::<T>(items, i) && items[i] == x);
                } else {
                    assert(x == last);
                    assert forall|k: int| 0 <= k < n implies T::order_key(#[trigger] items[k])
                        != T::order_key(items[n]) by {
                        assert(head[k] == items[k]);
                        let w = choose|i: int|
                            0 <= i < before.len() && T::order_key(#[trigger] before[i])
                                == T::order_key(head[k]);
                        assert(T::order_key(before[w]) != T::order_key(last));
                    }
                    assert(is_first::<T>(items, n) && items[n] == x);
                }
            }
            if exists|i: int| #[trigger] is_first::<T>(items, i) && items[i] == x {
                let i = choose|i: int| #[trigger] is_first::<T>(items, i) && items[i] == x;
                if i < n {
                    lemma_first_in_head::<T>(items, i);
                    assert(head[i] == x);
                    assert(before.contains(x));
                } else {
                    assert forall|k: int| 0 <= k < before.len() implies T::order_key(
                        #[trigger] before[k],
                    ) != T::order_key(last) by {
                        assert(before.contains(before[k]));
                        let m = choose|m: int| #[trigger]
                            is_first::<T>(head, m) && head[m] == before[k];
                        assert(items[m] == head[m]);
                    }
                    assert(r.contains(last));
                }
            }
        }
        assert forall|j: int| 0 <= j < items.len() implies exists|i: int|
            0 <= i < r.len() && T::order_key(#[trigger] r[i]) == T::order_key(
                #[trigger] items[j],
            ) by {
            if j < n {
                assert(items[j] == head[j]);
                let w = choose|i: int|
                    0 <= i < before.len() && T::order_key(#[trigger] before[i]) == T::order_key(
                        head[j],
                    );
                assert(before.contains(before[w]));
                let v = r.index_of(before[w]);
                assert(r[v] == before[w]);
            }
        }
    }
}

proof fn lemma_insert_absent_new<T: Indexed>(items: Seq<T::V>, item: T::V)
    requires
        in_order::<T>(items),
    ensures
        (forall|k: int| 0 <= k < items.len() ==> T::order_key(#[trigger] items[k]) != T::order_key(item))
            ==> insert_absent::<T>(items, item).contains(item),
    decreases items.len(),
{
    let r = insert_absent::<T>(items, item);
    if forall|k: int| 0 <= k < items.len() ==> T::order_key(#[trigger] items[k]) != T::order_key(item) {
        if items.len() == 0 || lex_less(T::order_key(item), T::order_key(items[0])) {
            assert(r[0] == item);
        } else {
            let tail = items.skip(1);
            assert forall|i: int, j: int|
                #![trigger tail[i], tail[j]]
                0 <= i < j < tail.len() implies lex_less(
                T::order_key(tail[i]),
                T::order_key(tail[j]),
            ) by {
                assert(tail[i] == items[i + 1] && tail[j] == items[j + 1]);
            }
            assert forall|k: int| 0 <= k < tail.len() implies T::order_key(#[trigger] tail[k])
                != T::order_key(item) by {
                assert(tail[k] == items[k + 1]);
            }
            lemma_insert_absent_new::<T>(tail, item);
            let rest = insert_absent::<T>(tail, item);
            let k = rest.index_of(item);
            assert(r[k + 1] == item);
        }
    }
}

proof fn lemma_first_in_head<T: Indexed>(items: Seq<T::V>, i: int)
    requires
        0 <= i < items.len() - 1,
    ensures
        is_first::<T>(items, i) == is_first::<T>(items.drop_last(), i),
{
    let head = items.drop_last();
    if is_first::<T>(head, i) {
        assert forall|k: int| 0 <= k < i implies T::order_key(#[trigger] items[k]) != T::order_key(
            items[i],
        ) by {
            assert(head[k] == items[k]);
        }
    }
    if is_first::<T>(items, i) {
        assert forall|k: int| 0 <= k < i implies T::order_key(#[trigger] head[k]) != T::order_key(
            head[i],
        ) by {
            assert(head[k] == items[k]);
        }
    }
}

/// Puts an item in its place, unless its key is there already.
pub fn insert_if_absent<T: Indexed>(items: &mut Vec<T>, item: T)
    requires
        in_order::<T>(old(items).deep_view()),
    ensures
        final(items).deep_view() == insert_absent::<T>(old(items).deep_view(), item.deep_view()),
        in_order::<T>(final(items).deep_view()),
{
    let ghost before = items.deep_view();
    let ghost new = item.deep_view();
    let key = item.key();
    let p = place_of(items, key.as_slice());
    proof {
        lemma_insert_absent_at::<T>(before, new, p as int);
        lemma_insert_absent::<T>(before, new);
    }
    let taken = if p < items.len() {
        let found = items[p].key();
        assert(found@ == T::order_key(before[p as int]));
        match compare_keys(found.as_slice(), key.as_slice()) {
            KeyOrder::Same => true,
            _ => false,
        }
    } else {
        false
    };
    if !taken {
        items.insert(p, item);
        assert(items.deep_view() == before.insert(p as int, new));
    }
}

/// Appends an item.
pub fn push_item<T: DeepView>(items: &mut Vec<T>, item: T)
    ensures
        final(items).deep_view() == old(items).deep_view().push(item.deep_view()),
{
    let ghost before = items.deep_view();
    let ghost new = item.deep_view();
    items.push(item);
    assert(items.deep_view() == before.push(new));
}

} // verus!
