//! The typed value that one column of a row holds.
use crate::row::Row;
use vstd::prelude::*;

verus! {

/// One typed cell of a row.
///
/// `Date` and `Filesize` are the derived kinds: a transform rule promotes an
/// `Int` cell into one of them, and nothing turns them back.
#[derive(Debug, PartialEq, Eq)]
pub enum Cell {
    /// No value.
    Absent,
    /// A truth value.
    Bool(bool),
    /// A raw integer.
    Int(i64),
    /// A fractional number, kept as its decimal text.
    Decimal(String),
    /// A string.
    Text(String),
    /// An instant: whole seconds since 1970-01-01T00:00:00 UTC, at offset zero.
    Date(i64),
    /// A count of bytes.
    Filesize(u64),
    /// A nested row.
    Row(Row),
    /// An ordered sequence of cells.
    List(Vec<Cell>),
}

impl Clone for Cell {
    /// A cell that holds the same value.
    fn clone(&self) -> (copy: Cell)
        ensures
            self.same(copy),
        decreases self,
    {
        match self {
            Cell::Absent => Cell::Absent,
            Cell::Bool(flag) => Cell::Bool(*flag),
            Cell::Int(value) => Cell::Int(*value),
            Cell::Decimal(text) => Cell::Decimal(text.clone()),
            Cell::Text(text) => Cell::Text(text.clone()),
            Cell::Date(seconds) => Cell::Date(*seconds),
            Cell::Filesize(bytes) => Cell::Filesize(*bytes),
            Cell::Row(row) => Cell::Row(row.clone()),
            Cell::List(items) => {
                let mut copies: Vec<Cell> = Vec::new();
                let mut index: usize = 0;
                while index < items.len()
                    invariant
                        index <= items.len(),
                        self is List,
                        self->List_0 == *items,
                        copies@.len() == index,
                        forall|i: int| 0 <= i < index ==> (#[trigger] items@[i]).same(copies@[i]),
                    decreases items.len() - index,
                {
                    assert(decreases_to!(self => items@[index as int])) by {
                        assert(decreases_to!(*self => self->List_0));
                        assert(decreases_to!(self->List_0 => self->List_0@));
                        assert(decreases_to!(items@ => items@[index as int]));
                    }
                    copies.push(items[index].clone());
                    index += 1;
                }
                Cell::List(copies)
            },
        }
    }
}

impl Cell {
    /// Whether `other` holds what this cell holds: the same kind with the same
    /// content, strings by their characters, rows by their columns and lists
    /// item by item.
    pub open spec fn same(self, other: Cell) -> bool
        decreases self,
    {
        match self {
            Cell::Decimal(text) => other matches Cell::Decimal(copy) && copy@ == text@,
            Cell::Text(text) => other matches Cell::Text(copy) && copy@ == text@,
            Cell::Row(row) => other matches Cell::Row(copy) && copy@ == row@,
            Cell::List(items) => other matches Cell::List(copies) && copies@.len() == items@.len()
                && forall|i: int|
                0 <= i < items@.len() ==> (#[trigger] items@[i]).same(copies@[i]),
            plain => other == plain,
        }
    }
}

} // verus!
