//! A small table from addresses to plain values.

use crate::address::Address;
use vstd::prelude::*;

verus! {

/// One row of a table.
pub struct Row<V> {
    pub key: Address,
    pub value: V,
}

/// A table from addresses to values in which no address occurs twice.
pub struct Table<V> {
    rows: Vec<Row<V>>,
}

/// Whether some row of `rows` has the key `key`.
pub open spec fn has_key<V>(rows: Seq<Row<V>>, key: Address) -> bool {
    exists|i: int| 0 <= i < rows.len() && (#[trigger] rows[i]).key == key
}

/// The position of a row with the key `key`.
pub open spec fn position<V>(rows: Seq<Row<V>>, key: Address) -> int {
    choose|i: int| 0 <= i < rows.len() && (#[trigger] rows[i]).key == key
}

/// Whether no key occurs in two rows.
pub open spec fn distinct_keys<V>(rows: Seq<Row<V>>) -> bool {
    forall|i: int, j: int|
        0 <= i < rows.len() && 0 <= j < rows.len() && (#[trigger] rows[i]).key == (
        #[trigger] rows[j]).key ==> i == j
}

/// The map that a sequence of rows stands for.
pub open spec fn rows_map<V>(rows: Seq<Row<V>>) -> Map<Address, V> {
    Map::new(|key: Address| has_key(rows, key), |key: Address| rows[position(rows, key)].value)
}

proof fn lemma_row_in_map<V>(rows: Seq<Row<V>>, i: int)
    requires
        distinct_keys(rows),
        0 <= i < rows.len(),
    ensures
        rows_map(rows).contains_key(rows[i].key),
        rows_map(rows)[rows[i].key] == rows[i].value,
        position(rows, rows[i].key) == i,
{
    assert(has_key(rows, rows[i].key));
}

proof fn lemma_push<V>(rows: Seq<Row<V>>, row: Row<V>)
    requires
        distinct_keys(rows),
        !has_key(rows, row.key),
    ensures
        distinct_keys(rows.push(row)),
        rows_map(rows.push(row)) == rows_map(rows).insert(row.key, row.value),
{
    let next = rows.push(row);
    assert forall|i: int, j: int|
        0 <= i < next.len() && 0 <= j < next.len() && (#[trigger] next[i]).key == (
        #[trigger] next[j]).key implies i == j by {
        if i < rows.len() {
            assert(next[i] == rows[i]);
        }
        if j < rows.len() {
            assert(next[j] == rows[j]);
        }
    }
    assert forall|key: Address|
        rows_map(next).contains_key(key) == rows_map(rows).insert(
            row.key,
            row.value,
        ).contains_key(key) by {
        if has_key(rows, key) {
            let i = position(rows, key);
            assert(next[i].key == key);
        }
        if key == row.key {
            assert(next[rows.len() as int].key == key);
        }
        if has_key(next, key) {
            let i = position(next, key);
            if i < rows.len() {
                assert(rows[i].key == key);
            }
        }
    }
    assert forall|key: Address| rows_map(next).contains_key(key) implies rows_map(next)[key]
        == rows_map(rows).insert(row.key, row.value)[key] by {
        let i = position(next, key);
        lemma_row_in_map(next, i);
        if i < rows.len() {
            assert(next[i] == rows[i]);
            lemma_row_in_map(rows, i);
        }
    }
    assert(rows_map(next) =~= rows_map(rows).insert(row.key, row.value));
}

proof fn lemma_update<V>(rows: Seq<Row<V>>, i: int, value: V)
    requires
        distinct_keys(rows),
        0 <= i < rows.len(),
    ensures
        distinct_keys(rows.update(i, Row { key: rows[i].key, value })),
        rows_map(rows.update(i, Row { key: rows[i].key, value })) == rows_map(rows).insert(
            rows[i].key,
            value,
        ),
{
    let key = rows[i].key;
    let next = rows.update(i, Row { key, value });
    assert forall|a: int, b: int|
        0 <= a < next.len() && 0 <= b < next.len() && (#[trigger] next[a]).key == (
        #[trigger] next[b]).key implies a == b by {
        assert(next[a].key == rows[a].key);
        assert(next[b].key == rows[b].key);
    }
    assert forall|k: Address|
        rows_map(next).contains_key(k) == rows_map(rows).insert(key, value).contains_key(k) by {
        if has_key(rows, k) {
            let a = position(rows, k);
            assert(next[a].key == k);
        }
        if has_key(next, k) {
            let a = position(next, k);
            assert(rows[a].key == k);
        }
        if k == key {
            assert(next[i].key == k);
        }
    }
    assert forall|k: Address| rows_map(next).contains_key(k) implies rows_map(next)[k] == rows_map(
        rows,
    ).insert(key, value)[k] by {
        let a = position(next, k);
        lemma_row_in_map(next, a);
        assert(rows[a].key == k);
        lemma_row_in_map(rows, a);
    }
    assert(rows_map(next) =~= rows_map(rows).insert(key, value));
}

proof fn lemma_remove<V>(rows: Seq<Row<V>>, i: int)
    requires
        distinct_keys(rows),
        0 <= i < rows.len(),
    ensures
        distinct_keys(rows.remove(i)),
        rows_map(rows.remove(i)) == rows_map(rows).remove(rows[i].key),
{
    let key = rows[i].key;
    let next = rows.remove(i);
    assert forall|a: int| 0 <= a < next.len() implies #[trigger] next[a] == rows[if a < i {
        a
    } else {
        a + 1
    }] by {}
    assert forall|a: int, b: int|
        0 <= a < next.len() && 0 <= b < next.len() && (#[trigger] next[a]).key == (
        #[trigger] next[b]).key implies a == b by {
        let a0 = if a < i { a } else { a + 1 };
        let b0 = if b < i { b } else { b + 1 };
        assert(next[a] == rows[a0]);
        assert(next[b] == rows[b0]);
    }
    assert forall|k: Address|
        rows_map(next).contains_key(k) == rows_map(rows).remove(key).contains_key(k) by {
        if has_key(rows, k) && k != key {
            let a = position(rows, k);
            let a1 = if a < i { a } else { a - 1 };
            assert(next[a1] == rows[a]);
            assert(next[a1].key == k);
        }
        if has_key(next, k) {
            let a = position(next, k);
            let a0 = if a < i { a } else { a + 1 };
            assert(next[a] == rows[a0]);
            assert(rows[a0].key == k);
            assert(a0 != i);
        }
    }
    assert forall|k: Address| rows_map(next).contains_key(k) implies rows_map(next)[k] == rows_map(
        rows,
    ).remove(key)[k] by {
        let a = position(next, k);
        lemma_row_in_map(next, a);
        let a0 = if a < i { a } else { a + 1 };
        assert(next[a] == rows[a0]);
        lemma_row_in_map(rows, a0);
    }
    assert(rows_map(next) =~= rows_map(rows).remove(key));
}

impl<V> Table<V> {
    #[verifier::type_invariant]
    spec fn distinct(self) -> bool {
        distinct_keys(self.rows@)
    }
}

impl<V: Copy> Table<V> {
    /// The map that the table stands for.
    pub closed spec fn view(&self) -> Map<Address, V> {
        rows_map(self.rows@)
    }

    /// An empty table.
    pub fn new() -> (table: Self)
        ensures
            table@ == Map::<Address, V>::empty(),
    {
        let table = Table { rows: Vec::new() };
        assert(table@ =~= Map::<Address, V>::empty());
        table
    }

    fn find(&self, key: &Address) -> (at: Option<usize>)
        ensures
            match at {
                Some(i) => i < self.rows@.len() && self.rows@[i as int].key == *key,
                None => !has_key(self.rows@, *key),
            },
    {
        let mut i: usize = 0;
        while i < self.rows.len()
            invariant
                i <= self.rows@.len(),
                forall|j: int| 0 <= j < i ==> (#[trigger] self.rows@[j]).key != *key,
            decreases self.rows@.len() - i,
        {
            if self.rows[i].key == *key {
                return Some(i);
            }
            i += 1;
        }
        None
    }

    /// The value stored under `key`, if any.
    pub fn get(&self, key: &Address) -> (value: Option<V>)
        ensures
            value == (if self@.contains_key(*key) {
                Some(self@[*key])
            } else {
                None
            }),
    {
        proof {
            use_type_invariant(self);
        }
        match self.find(key) {
            Some(i) => {
                proof {
                    lemma_row_in_map(self.rows@, i as int);
                }
                Some(self.rows[i].value)
            },
            None => None,
        }
    }

    /// Stores `value` under `key`, in place of any value stored there.
    pub fn put(&mut self, key: Address, value: V)
        ensures
            final(self)@ == old(self)@.insert(key, value),
    {
        proof {
            use_type_invariant(&*self);
        }
        let at = self.find(&key);
        let mut rows: Vec<Row<V>> = Vec::new();
        std::mem::swap(&mut rows, &mut self.rows);
        match at {
            Some(i) => {
                proof {
                    lemma_update(rows@, i as int, value);
                }
                rows[i] = Row { key, value };
            },
            None => {
                proof {
                    lemma_push(rows@, Row { key, value });
                }
                rows.push(Row { key, value });
            },
        }
        std::mem::swap(&mut rows, &mut self.rows);
    }

    /// Removes `key` and the value stored under it, if any.
    pub fn remove(&mut self, key: &Address)
        ensures
            final(self)@ == old(self)@.remove(*key),
    {
        proof {
            use_type_invariant(&*self);
        }
        let at = self.find(key);
        let mut rows: Vec<Row<V>> = Vec::new();
        std::mem::swap(&mut rows, &mut self.rows);
        match at {
            Some(i) => {
                proof {
                    lemma_remove(rows@, i as int);
                }
                rows.remove(i);
            },
            None => {
                assert(rows_map(rows@) =~= rows_map(rows@).remove(*key));
            },
        }
        std::mem::swap(&mut rows, &mut self.rows);
    }

    /// A copy of the table.
    pub fn snapshot(&self) -> (copy: Self)
        ensures
            copy@ == self@,
    {
        proof {
            use_type_invariant(self);
        }
        let mut rows: Vec<Row<V>> = Vec::new();
        let mut i: usize = 0;
        while i < self.rows.len()
            invariant
                i <= self.rows@.len(),
                rows@ == self.rows@.subrange(0, i as int),
            decreases self.rows@.len() - i,
        {
            rows.push(Row { key: self.rows[i].key, value: self.rows[i].value });
            assert(rows@ =~= self.rows@.subrange(0, i + 1));
            i += 1;
        }
        assert(rows@ =~= self.rows@);
        Table { rows }
    }
}

} // verus!
