//! A row: an ordered mapping from column names to cells.
//!
//! The mapping is an `indexmap::IndexMap`. Verus does not look inside it: the
//! functions at the end of this file state what the map's methods do, and the
//! methods of [`Row`] are verified against those statements.
use crate::cell::Cell;
use indexmap::IndexMap;
use vstd::prelude::*;

verus! {

/// What a row holds, in order: each column's name with its cell.
pub type Entries = Seq<(Seq<char>, Cell)>;

/// The index of the first column called `name`, if there is one.
pub open spec fn position(entries: Entries, name: Seq<char>) -> Option<int>
    decreases entries.len(),
{
    if entries.len() == 0 {
        None
    } else {
        let earlier = position(entries.drop_last(), name);
        if earlier is Some {
            earlier
        } else if entries.last().0 == name {
            Some(entries.len() - 1)
        } else {
            None
        }
    }
}

/// Whether some column is called `name`.
pub open spec fn has_column(entries: Entries, name: Seq<char>) -> bool {
    position(entries, name) is Some
}

/// The cell of the column called `name`.
pub open spec fn cell_at(entries: Entries, name: Seq<char>) -> Option<Cell> {
    match position(entries, name) {
        Some(index) => Some(entries[index].1),
        None => None,
    }
}

/// `entries` after `cell` is stored under `name`: an existing column keeps its
/// place and takes the new cell, a new column goes last.
pub open spec fn with_cell(entries: Entries, name: Seq<char>, cell: Cell) -> Entries {
    match position(entries, name) {
        Some(index) => entries.update(index, (name, cell)),
        None => entries.push((name, cell)),
    }
}

/// `entries` without the column at `index`: the last column takes its place.
pub open spec fn swap_removed(entries: Entries, index: int) -> Entries {
    entries.update(index, entries.last()).drop_last()
}

/// `entries` without the column called `name`, whose place the last column takes.
pub open spec fn without(entries: Entries, name: Seq<char>) -> Entries {
    match position(entries, name) {
        Some(index) => swap_removed(entries, index),
        None => entries,
    }
}

/// No two columns share a name.
pub open spec fn distinct_names(entries: Entries) -> bool {
    forall|i: int, j: int| 0 <= i < j < entries.len() ==> entries[i].0 != entries[j].0
}

/// The names of the columns, in order.
pub open spec fn names(entries: Entries) -> Seq<Seq<char>> {
    Seq::new(entries.len(), |i: int| entries[i].0)
}

/// `position` gives the first index that holds `name`, and `None` only where no index does.
pub proof fn lemma_position(entries: Entries, name: Seq<char>)
    ensures
        match position(entries, name) {
            Some(index) => {
                &&& 0 <= index < entries.len()
                &&& entries[index].0 == name
                &&& forall|j: int| 0 <= j < index ==> entries[j].0 != name
            },
            None => forall|j: int| 0 <= j < entries.len() ==> entries[j].0 != name,
        },
    decreases entries.len(),
{
    if entries.len() > 0 {
        let front = entries.drop_last();
        lemma_position(front, name);
        assert(forall|j: int| 0 <= j < front.len() ==> front[j] == entries[j]);
        match position(front, name) {
            Some(index) => {
                assert(front[index] == entries[index]);
            },
            None => {
                assert forall|j: int| 0 <= j < entries.len() - 1 implies entries[j].0 != name by {
                    assert(front[j] == entries[j]);
                }
            },
        }
    }
}

/// An index that holds `name`, with no earlier one that does, is the `position` of `name`.
pub proof fn lemma_position_is(entries: Entries, name: Seq<char>, index: int)
    requires
        0 <= index < entries.len(),
        entries[index].0 == name,
        forall|j: int| 0 <= j < index ==> entries[j].0 != name,
    ensures
        position(entries, name) == Some(index),
{
    lemma_position(entries, name);
}

/// Where no column is called `name`, `position` finds none.
pub proof fn lemma_position_none(entries: Entries, name: Seq<char>)
    requires
        forall|j: int| 0 <= j < entries.len() ==> entries[j].0 != name,
    ensures
        position(entries, name) is None,
{
    lemma_position(entries, name);
}

/// Storing a cell keeps the names distinct.
pub proof fn lemma_with_cell_distinct(entries: Entries, name: Seq<char>, cell: Cell)
    requires
        distinct_names(entries),
    ensures
        distinct_names(with_cell(entries, name, cell)),
{
    lemma_position(entries, name);
}

/// Removing a column keeps the names distinct.
pub proof fn lemma_without_distinct(entries: Entries, name: Seq<char>)
    requires
        distinct_names(entries),
    ensures
        distinct_names(without(entries, name)),
{
    lemma_position(entries, name);
}

/// In a row with distinct names, a column is found at the index that holds its name.
pub proof fn lemma_position_distinct(entries: Entries, name: Seq<char>, index: int)
    requires
        distinct_names(entries),
        0 <= index < entries.len(),
        entries[index].0 == name,
    ensures
        position(entries, name) == Some(index),
{
    lemma_position(entries, name);
}

/// What a lookup finds after a cell has been stored: the new cell under its
/// name, and under any other name what was there before.
pub proof fn lemma_with_cell_lookup(entries: Entries, name: Seq<char>, cell: Cell, other: Seq<char>)
    ensures
        cell_at(with_cell(entries, name, cell), other) == if other == name {
            Some(cell)
        } else {
            cell_at(entries, other)
        },
        names(with_cell(entries, name, cell)) == if has_column(entries, name) {
            names(entries)
        } else {
            names(entries).push(name)
        },
{
    let after = with_cell(entries, name, cell);
    lemma_position(entries, name);
    lemma_position(entries, other);
    lemma_position(after, other);
    match position(entries, other) {
        Some(index) => {
            assert(after[index].0 == other);
        },
        None => {},
    }
    match position(entries, name) {
        Some(index) => {
            assert(names(after) =~= names(entries));
        },
        None => {
            assert(names(after) =~= names(entries).push(name));
        },
    }
}

/// What a lookup finds after a column has been removed: nothing under its
/// name, and under any other name what was there before.
pub proof fn lemma_without_lookup(entries: Entries, name: Seq<char>, other: Seq<char>)
    requires
        distinct_names(entries),
    ensures
        cell_at(without(entries, name), other) == if other == name {
            None
        } else {
            cell_at(entries, other)
        },
        without(entries, name).len() == if has_column(entries, name) {
            entries.len() - 1
        } else {
            entries.len() as int
        },
{
    let after = without(entries, name);
    lemma_position(entries, name);
    lemma_position(entries, other);
    lemma_position(after, other);
    lemma_without_distinct(entries, name);
    match position(entries, name) {
        Some(gone) => {
            match position(after, other) {
                Some(found) => {
                    let source = if found == gone {
                        entries.len() - 1
                    } else {
                        found
                    };
                    assert(after[found] == entries[source]);
                    lemma_position_distinct(entries, other, source);
                },
                None => {
                    match position(entries, other) {
                        Some(index) => {
                            if index != gone {
                                let target = if index == entries.len() - 1 {
                                    gone
                                } else {
                                    index
                                };
                                assert(after[target] == entries[index]);
                            }
                        },
                        None => {},
                    }
                },
            }
        },
        None => {},
    }
}

/// An ordered mapping from column name to cell.
///
/// The struct is opaque to Verus: a cell may hold a row, and Verus accepts a
/// type that nests itself through the map only where it does not look into
/// the map. What Verus knows of a row is its view, the columns in order.
///
/// `==` compares two rows as maps: the same names with equal cells, in any order.
#[verifier::external_body]
#[derive(Debug, PartialEq, Eq)]
pub struct Row {
    entries: IndexMap<String, Cell>,
}

/// The columns of `row` in the order in which the map keeps them.
pub uninterp spec fn row_entries(row: Row) -> Seq<(Seq<char>, Cell)>;

impl View for Row {
    type V = Seq<(Seq<char>, Cell)>;

    open spec fn view(&self) -> Seq<(Seq<char>, Cell)> {
        row_entries(*self)
    }
}

impl Clone for Row {
    /// A row with the same columns in the same order.
    fn clone(&self) -> (copy: Row)
        ensures
            copy@ == self@,
    {
        map_clone(self)
    }
}

impl Row {
    /// Well-formedness: no two columns share a name.
    pub open spec fn wf(&self) -> bool {
        distinct_names(self@)
    }

    /// A row without columns.
    pub fn new() -> (row: Row)
        ensures
            row@ == Seq::<(Seq<char>, Cell)>::empty(),
            row.wf(),
    {
        map_new()
    }

    /// The number of columns.
    pub fn len(&self) -> (count: usize)
        ensures
            count == self@.len(),
    {
        map_len(self)
    }

    /// The cell of the column called `name`.
    pub fn get(&self, name: &str) -> (found: Option<&Cell>)
        ensures
            match found {
                Some(cell) => cell_at(self@, name@) == Some(*cell),
                None => cell_at(self@, name@) is None,
            },
    {
        map_get(self, name)
    }

    /// The name and cell of the column at `index`, counting from zero.
    pub fn column(&self, index: usize) -> (found: Option<(&String, &Cell)>)
        ensures
            match found {
                Some((name, cell)) => index < self@.len() && self@[index as int] == (name@, *cell),
                None => index >= self@.len(),
            },
    {
        map_get_index(self, index)
    }

    /// Stores `cell` under `name` and returns the cell that was there before.
    /// An existing column keeps its place; a new one goes last.
    pub fn insert(&mut self, name: String, cell: Cell) -> (previous: Option<Cell>)
        ensures
            final(self)@ == with_cell(old(self)@, name@, cell),
            previous == cell_at(old(self)@, name@),
            cell_at(final(self)@, name@) == Some(cell),
            old(self).wf() ==> final(self).wf(),
    {
        proof {
            lemma_with_cell_lookup(self@, name@, cell, name@);
            if self.wf() {
                lemma_with_cell_distinct(self@, name@, cell);
            }
        }
        map_insert(self, name, cell)
    }

    /// Removes the column called `name` and returns its cell. The last column
    /// moves into the place of the removed one.
    pub fn remove(&mut self, name: &str) -> (removed: Option<Cell>)
        ensures
            final(self)@ == without(old(self)@, name@),
            removed == cell_at(old(self)@, name@),
            old(self).wf() ==> final(self).wf() && cell_at(final(self)@, name@) is None,
    {
        proof {
            if self.wf() {
                lemma_without_distinct(self@, name@);
                lemma_without_lookup(self@, name@, name@);
            }
        }
        map_remove(self, name)
    }
}

/// `IndexMap::new`: a map without pairs.
#[verifier::external_body]
fn map_new() -> (row: Row)
    ensures
        row_entries(row) == Seq::<(Seq<char>, Cell)>::empty(),
{
    Row { entries: IndexMap::new() }
}

/// `IndexMap::clone`: a map with the same pairs in the same order.
#[verifier::external_body]
fn map_clone(row: &Row) -> (copy: Row)
    ensures
        row_entries(copy) == row_entries(*row),
{
    Row { entries: row.entries.clone() }
}

/// `IndexMap::len`: the number of pairs in the map.
#[verifier::external_body]
fn map_len(row: &Row) -> (count: usize)
    ensures
        count == row_entries(*row).len(),
{
    row.entries.len()
}

/// `IndexMap::get`: the value stored for the key, `None` where the key is not in the map.
#[verifier::external_body]
fn map_get<'a>(row: &'a Row, name: &str) -> (found: Option<&'a Cell>)
    ensures
        match found {
            Some(cell) => cell_at(row_entries(*row), name@) == Some(*cell),
            None => cell_at(row_entries(*row), name@) is None,
        },
{
    row.entries.get(name)
}

/// `IndexMap::get_index`: the pair at the index, `None` where the index is not below the length.
#[verifier::external_body]
fn map_get_index<'a>(row: &'a Row, index: usize) -> (found: Option<(&'a String, &'a Cell)>)
    ensures
        match found {
            Some((name, cell)) => index < row_entries(*row).len() && row_entries(*row)[index as int]
                == (name@, *cell),
            None => index >= row_entries(*row).len(),
        },
{
    row.entries.get_index(index)
}

/// `IndexMap::insert`: where the key is in the map it keeps its place and takes
/// the new value, and the old value is returned; otherwise the pair is added
/// last and `None` is returned.
#[verifier::external_body]
fn map_insert(row: &mut Row, name: String, cell: Cell) -> (previous: Option<Cell>)
    ensures
        row_entries(*final(row)) == with_cell(row_entries(*old(row)), name@, cell),
        previous == cell_at(row_entries(*old(row)), name@),
{
    row.entries.insert(name, cell)
}

/// `IndexMap::remove`: the pair of the key is swapped with the last pair and
/// popped off, and its value is returned; where the key is not in the map
/// nothing changes and `None` is returned.
#[verifier::external_body]
fn map_remove(row: &mut Row, name: &str) -> (removed: Option<Cell>)
    ensures
        row_entries(*final(row)) == without(row_entries(*old(row)), name@),
        removed == cell_at(row_entries(*old(row)), name@),
{
    row.entries.remove(name)
}

} // verus!
