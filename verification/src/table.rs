//! A list of named values in which every name occurs once.
//!
//! The manifest and the metadata store are both keyed by dotfile name. The
//! order of the rows is the order in which names were first inserted, and
//! that is the order in which the workflows walk them.

use crate::text::same_text;
use vstd::prelude::*;

verus! {

/// The names of the rows, in order.
pub open spec fn names_of<V>(rows: Seq<(Seq<char>, V)>) -> Seq<Seq<char>> {
    Seq::new(rows.len(), |i: int| rows[i].0)
}

/// No two rows carry the same name.
pub open spec fn distinct_names<V>(rows: Seq<(Seq<char>, V)>) -> bool {
    forall|i: int, j: int|
        0 <= i < rows.len() && 0 <= j < rows.len() && i != j ==> (#[trigger] rows[i]).0 != (
        #[trigger] rows[j]).0
}

/// Some row is called `name`.
pub open spec fn has_name<V>(rows: Seq<(Seq<char>, V)>, name: Seq<char>) -> bool {
    exists|i: int| 0 <= i < rows.len() && (#[trigger] rows[i]).0 == name
}

/// The index of a row called `name`, where there is one.
pub open spec fn position_of<V>(rows: Seq<(Seq<char>, V)>, name: Seq<char>) -> int {
    choose|i: int| 0 <= i < rows.len() && (#[trigger] rows[i]).0 == name
}

/// The value filed under `name`, if any.
pub open spec fn lookup<V>(rows: Seq<(Seq<char>, V)>, name: Seq<char>) -> Option<V> {
    if has_name(rows, name) {
        Some(rows[position_of(rows, name)].1)
    } else {
        None
    }
}

/// The rows after `value` was filed under `name`: an existing row keeps its
/// place and gets the new value, a new name goes to the end.
pub open spec fn upsert<V>(rows: Seq<(Seq<char>, V)>, name: Seq<char>, value: V) -> Seq<
    (Seq<char>, V),
> {
    if has_name(rows, name) {
        rows.update(position_of(rows, name), (name, value))
    } else {
        rows.push((name, value))
    }
}

/// In rows with distinct names a name determines its row.
pub proof fn lemma_position_unique<V>(rows: Seq<(Seq<char>, V)>, i: int)
    requires
        distinct_names(rows),
        0 <= i < rows.len(),
    ensures
        has_name(rows, rows[i].0),
        position_of(rows, rows[i].0) == i,
        lookup(rows, rows[i].0) == Some(rows[i].1),
{
    let at = position_of(rows, rows[i].0);
    assert(rows[at].0 == rows[i].0);
}

/// Filing a value keeps the names distinct, makes the value the one found
/// under its name, and leaves every other name as it was.
pub proof fn lemma_upsert<V>(rows: Seq<(Seq<char>, V)>, name: Seq<char>, value: V)
    requires
        distinct_names(rows),
    ensures
        distinct_names(upsert(rows, name, value)),
        lookup(upsert(rows, name, value), name) == Some(value),
        forall|other: Seq<char>|
            other != name ==> lookup(upsert(rows, name, value), other) == lookup(rows, other),
        upsert(rows, name, value).len() == if has_name(rows, name) {
            rows.len()
        } else {
            rows.len() + 1
        },
{
    let after = upsert(rows, name, value);
    let at = if has_name(rows, name) {
        position_of(rows, name)
    } else {
        rows.len() as int
    };
    assert(after[at] == (name, value));
    assert forall|i: int, j: int|
        0 <= i < after.len() && 0 <= j < after.len() && i != j implies (#[trigger] after[i]).0 != (
    #[trigger] after[j]).0 by {
        if i != at && j != at {
            assert(after[i] == rows[i] && after[j] == rows[j]);
        } else if i == at {
            assert(after[j] == rows[j]);
        } else {
            assert(after[i] == rows[i]);
        }
    }
    lemma_position_unique(after, at);
    assert forall|other: Seq<char>| other != name implies lookup(after, other) == lookup(
        rows,
        other,
    ) by {
        if has_name(rows, other) {
            let k = position_of(rows, other);
            assert(after[k] == rows[k]);
            lemma_position_unique(after, k);
            lemma_position_unique(rows, k);
        } else if has_name(after, other) {
            let k = position_of(after, other);
            assert(after[k] == rows[k]);
        }
    }
}

/// The rows that a list of entries stands for.
pub open spec fn rows_of<V>(entries: Seq<(String, V)>) -> Seq<(Seq<char>, V)> {
    Seq::new(entries.len(), |i: int| (entries[i].0@, entries[i].1))
}

/// A list of named values, each name used once.
#[derive(Debug)]
pub struct Table<V> {
    entries: Vec<(String, V)>,
}

impl<V> Table<V> {
    /// The rows of the table: each name as text, with its value.
    pub closed spec fn rows(&self) -> Seq<(Seq<char>, V)> {
        rows_of(self.entries@)
    }

    #[verifier::type_invariant]
    spec fn well_formed(&self) -> bool {
        distinct_names(self.rows())
    }

    /// A table without rows.
    pub fn new() -> (table: Self)
        ensures
            table.rows() == Seq::<(Seq<char>, V)>::empty(),
    {
        let table = Table { entries: Vec::new() };
        assert(table.rows() =~= Seq::<(Seq<char>, V)>::empty());
        table
    }

    /// The number of rows. Their names are distinct.
    pub fn len(&self) -> (count: usize)
        ensures
            count == self.rows().len(),
            distinct_names(self.rows()),
    {
        proof {
            use_type_invariant(self);
        }
        self.entries.len()
    }

    /// The row at `index`, if there are that many.
    pub fn entry(&self, index: usize) -> (row: Option<(&String, &V)>)
        ensures
            match row {
                Some((name, value)) => index < self.rows().len() && self.rows()[index as int] == (
                    name@,
                    *value,
                ),
                None => index >= self.rows().len(),
            },
    {
        if index < self.entries.len() {
            let row = &self.entries[index];
            Some((&row.0, &row.1))
        } else {
            None
        }
    }

    /// The index of the row called `name`, if any.
    pub fn position(&self, name: &str) -> (found: Option<usize>)
        ensures
            distinct_names(self.rows()),
            match found {
                Some(i) => has_name(self.rows(), name@) && i as int == position_of(
                    self.rows(),
                    name@,
                ) && i < self.rows().len(),
                None => !has_name(self.rows(), name@),
            },
    {
        proof {
            use_type_invariant(self);
        }
        let mut i: usize = 0;
        while i < self.entries.len()
            invariant
                i <= self.entries@.len(),
                distinct_names(self.rows()),
                forall|j: int| 0 <= j < i ==> (#[trigger] self.rows()[j]).0 != name@,
            decreases self.entries@.len() - i,
        {
            if same_text(self.entries[i].0.as_str(), name) {
                proof {
                    assert(self.rows()[i as int].0 == name@);
                    lemma_position_unique(self.rows(), i as int);
                }
                return Some(i);
            }
            i += 1;
        }
        None
    }

    /// Whether a row is called `name`.
    pub fn contains_key(&self, name: &str) -> (present: bool)
        ensures
            present == has_name(self.rows(), name@),
    {
        self.position(name).is_some()
    }

    /// The value filed under `name`, if any.
    pub fn get(&self, name: &str) -> (found: Option<&V>)
        ensures
            match found {
                Some(value) => lookup(self.rows(), name@) == Some(*value),
                None => lookup(self.rows(), name@) is None,
            },
    {
        match self.position(name) {
            Some(i) => Some(&self.entries[i].1),
            None => None,
        }
    }

    /// Files `value` under `name`, in place of what was there before.
    pub fn insert(&mut self, name: String, value: V)
        ensures
            final(self).rows() == upsert(old(self).rows(), name@, value),
            distinct_names(final(self).rows()),
            lookup(final(self).rows(), name@) == Some(value),
            forall|other: Seq<char>|
                other != name@ ==> lookup(final(self).rows(), other) == lookup(
                    old(self).rows(),
                    other,
                ),
    {
        proof {
            use_type_invariant(&*self);
            lemma_upsert(self.rows(), name@, value);
        }
        let ghost before = self.rows();
        let found = self.position(name.as_str());
        let mut taken = Table::new();
        core::mem::swap(self, &mut taken);
        let Table { entries } = taken;
        let mut entries = entries;
        match found {
            Some(i) => {
                entries.set(i, (name, value));
            },
            None => {
                entries.push((name, value));
            },
        }
        assert(rows_of(entries@) =~= upsert(before, name@, value));
        *self = Table { entries };
    }
}

} // verus!
