use vstd::prelude::*;
use crate::text::string_views;

verus! {

/// A database row that is grouped under one of its fields.
pub trait Keyed: Sized {
    /// The field that the row is grouped under.
    spec fn key(&self) -> Seq<char>;

    fn key_of(&self) -> (k: &String)
        ensures
            k@ == self.key(),
    ;

    /// A copy of the row.
    fn duplicate(&self) -> (r: Self)
        ensures
            r == *self,
    ;
}

/// The rows grouped under `key`, in their order.
pub open spec fn with_key<T: Keyed>(rows: Seq<T>, key: Seq<char>) -> Seq<T>
    decreases rows.len(),
{
    if rows.len() == 0 {
        Seq::empty()
    } else if rows.last().key() == key {
        with_key(rows.drop_last(), key).push(rows.last())
    } else {
        with_key(rows.drop_last(), key)
    }
}

/// The last row grouped under `key`, if any.
pub open spec fn last_with_key<T: Keyed>(rows: Seq<T>, key: Seq<char>) -> Option<T>
    decreases rows.len(),
{
    if rows.len() == 0 {
        None
    } else if rows.last().key() == key {
        Some(rows.last())
    } else {
        last_with_key(rows.drop_last(), key)
    }
}

/// Whether row `i` is the first one grouped under its key.
pub open spec fn first_with_its_key<T: Keyed>(rows: Seq<T>, i: int) -> bool {
    forall|j: int| 0 <= j < i ==> #[trigger] rows[j].key() != rows[i].key()
}

/// Every row of `with_key(rows, key)` is grouped under `key` and is one of
/// `rows`.
pub proof fn lemma_with_key_members<T: Keyed>(rows: Seq<T>, key: Seq<char>)
    ensures
        forall|k: int|
            0 <= k < with_key(rows, key).len() ==> (#[trigger] with_key(rows, key)[k]).key()
                == key && rows.contains(with_key(rows, key)[k]),
        with_key(rows, key).len() <= rows.len(),
    decreases rows.len(),
{
    if rows.len() > 0 {
        lemma_with_key_members(rows.drop_last(), key);
        let prev = with_key(rows.drop_last(), key);
        assert forall|k: int| 0 <= k < prev.len() implies rows.contains(#[trigger] prev[k]) by {
            assert(rows.drop_last().contains(prev[k]));
            let m = choose|m: int| 0 <= m < rows.drop_last().len() && rows.drop_last()[m] == prev[k];
            assert(rows[m] == prev[k]);
        }
        if rows.last().key() == key {
            assert(rows[rows.len() - 1] == rows.last());
        }
    }
}

/// The rows of `rows` grouped under `key`, in their order.
pub fn rows_with_key<T: Keyed>(rows: &Vec<T>, key: &String) -> (r: Vec<T>)
    ensures
        r@ == with_key(rows@, key@),
{
    let mut r: Vec<T> = Vec::new();
    let mut i: usize = 0;
    while i < rows.len()
        invariant
            i <= rows.len(),
            r@ == with_key(rows@.take(i as int), key@),
        decreases rows.len() - i,
    {
        assert(rows@.take(i + 1).drop_last() =~= rows@.take(i as int));
        assert(rows@.take(i + 1).last() == rows@[i as int]);
        if *rows[i].key_of() == *key {
            r.push(rows[i].duplicate());
        }
        i = i + 1;
    }
    assert(rows@.take(rows.len() as int) =~= rows@);
    r
}

/// The last row of `rows` grouped under `key`, if any.
pub fn last_row_with_key<T: Keyed>(rows: &Vec<T>, key: &String) -> (r: Option<T>)
    ensures
        r == last_with_key(rows@, key@),
{
    let mut r: Option<T> = None;
    let mut i: usize = 0;
    while i < rows.len()
        invariant
            i <= rows.len(),
            r == last_with_key(rows@.take(i as int), key@),
        decreases rows.len() - i,
    {
        assert(rows@.take(i + 1).drop_last() =~= rows@.take(i as int));
        assert(rows@.take(i + 1).last() == rows@[i as int]);
        if *rows[i].key_of() == *key {
            r = Some(rows[i].duplicate());
        }
        i = i + 1;
    }
    assert(rows@.take(rows.len() as int) =~= rows@);
    r
}

/// Whether row `i` is the first one grouped under its key.
pub fn is_first_with_its_key<T: Keyed>(rows: &Vec<T>, i: usize) -> (b: bool)
    requires
        i < rows.len(),
    ensures
        b == first_with_its_key(rows@, i as int),
{
    let mut j: usize = 0;
    while j < i
        invariant
            i < rows.len(),
            j <= i,
            forall|m: int| 0 <= m < j ==> #[trigger] rows@[m].key() != rows@[i as int].key(),
        decreases i - j,
    {
        if *rows[j].key_of() == *rows[i].key_of() {
            return false;
        }
        j = j + 1;
    }
    true
}


/// A pair of strings grouped under its first one, such as a term id and one
/// of the term's domain labels.
impl Keyed for (String, String) {
    open spec fn key(&self) -> Seq<char> {
        self.0@
    }

    fn key_of(&self) -> (k: &String) {
        &self.0
    }

    fn duplicate(&self) -> (r: Self) {
        (self.0.clone(), self.1.clone())
    }
}

/// The second strings of pairs, in order.
pub open spec fn seconds(pairs: Seq<(String, String)>) -> Seq<String> {
    pairs.map_values(|p: (String, String)| p.1)
}

/// The second strings of the pairs grouped under `key`.
pub fn seconds_with_key(pairs: &Vec<(String, String)>, key: &String) -> (r: Vec<String>)
    ensures
        r@ == seconds(with_key(pairs@, key@)),
{
    let group = rows_with_key(pairs, key);
    let mut r: Vec<String> = Vec::new();
    let mut i: usize = 0;
    while i < group.len()
        invariant
            i <= group.len(),
            r@ == seconds(group@.take(i as int)),
        decreases group.len() - i,
    {
        r.push(group[i].1.clone());
        i = i + 1;
        assert(r@ =~= seconds(group@.take(i as int)));
    }
    assert(group@.take(group.len() as int) =~= group@);
    r
}

/// Whether `key` is among the strings.
pub fn contains_string(items: &Vec<String>, key: &String) -> (b: bool)
    ensures
        b == string_views(items@).contains(key@),
{
    let mut i: usize = 0;
    while i < items.len()
        invariant
            i <= items.len(),
            forall|m: int| 0 <= m < i ==> (#[trigger] items@[m])@ != key@,
        decreases items.len() - i,
    {
        if items[i] == *key {
            assert(string_views(items@)[i as int] == key@);
            return true;
        }
        i = i + 1;
    }
    assert forall|m: int| 0 <= m < items@.len() implies #[trigger] string_views(items@)[m] != key@ by {
        assert(items@[m]@ != key@);
    }
    false
}


/// The rows grouped under `key` are the rows, in order, that a predicate
/// holding exactly of the rows with key `key` keeps.
pub proof fn lemma_with_key_is_filter<T: Keyed>(rows: Seq<T>, key: Seq<char>, has_key: spec_fn(T) -> bool)
    requires
        forall|r: T| #[trigger] has_key(r) <==> r.key() == key,
    ensures
        with_key(rows, key) == rows.filter(has_key),
    decreases rows.len(),
{
    reveal(Seq::filter);
    if rows.len() > 0 {
        lemma_with_key_is_filter(rows.drop_last(), key, has_key);
        assert(has_key(rows.last()) <==> rows.last().key() == key);
    }
}

/// The last row grouped under `key` is a row at some position with that key
/// and no later row has it; there is none when no row has it.
pub proof fn lemma_last_with_key_is_last<T: Keyed>(rows: Seq<T>, key: Seq<char>)
    ensures
        last_with_key(rows, key) is None <==> forall|m: int| 0 <= m < rows.len() ==> (#[trigger] rows[m]).key() != key,
        last_with_key(rows, key) matches Some(r) ==> exists|k: int|
            0 <= k < rows.len() && #[trigger] rows[k] == r && r.key() == key && forall|m: int|
                k < m < rows.len() ==> (#[trigger] rows[m]).key() != key,
    decreases rows.len(),
{
    if rows.len() > 0 {
        let prev = rows.drop_last();
        lemma_last_with_key_is_last(prev, key);
        let n = rows.len() - 1;
        if rows.last().key() == key {
            assert(rows[n] == rows.last());
        } else {
            assert forall|m: int| 0 <= m < rows.len() && (forall|q: int| 0 <= q < prev.len() ==> (#[trigger] prev[q]).key() != key)
                implies (#[trigger] rows[m]).key() != key by {
                if m < n {
                    assert(prev[m] == rows[m]);
                }
            }
            if forall|m: int| 0 <= m < rows.len() ==> (#[trigger] rows[m]).key() != key {
                assert forall|q: int| 0 <= q < prev.len() implies (#[trigger] prev[q]).key() != key by {
                    assert(prev[q] == rows[q]);
                }
            }
            if let Some(r) = last_with_key(prev, key) {
                let k = choose|k: int|
                    0 <= k < prev.len() && #[trigger] prev[k] == r && r.key() == key && forall|m: int|
                        k < m < prev.len() ==> (#[trigger] prev[m]).key() != key;
                assert(rows[k] == r);
                assert forall|m: int| k < m < rows.len() implies (#[trigger] rows[m]).key() != key by {
                    if m < n {
                        assert(prev[m] == rows[m]);
                    }
                }
            }
        }
    }
}

/// The last row grouped under `key`, if any, is grouped under `key` and is one
/// of `rows`.
pub proof fn lemma_last_with_key_member<T: Keyed>(rows: Seq<T>, key: Seq<char>)
    ensures
        last_with_key(rows, key) matches Some(r) ==> r.key() == key && rows.contains(r),
    decreases rows.len(),
{
    if rows.len() > 0 {
        lemma_last_with_key_member(rows.drop_last(), key);
        if rows.last().key() == key {
            assert(rows[rows.len() - 1] == rows.last());
        } else if let Some(r) = last_with_key(rows.drop_last(), key) {
            let m = choose|m: int| 0 <= m < rows.drop_last().len() && rows.drop_last()[m] == r;
            assert(rows[m] == r);
        }
    }
}

} // verus!
