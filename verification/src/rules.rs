//! The row transform rules: timestamp decoding, byte-size tagging and column removal.
use crate::cell::Cell;
use crate::mode::Mode;
use crate::laws::{
    lemma_byte_size_lookup, lemma_rule_settles, lemma_rules_idempotent, lemma_timestamp_lookup,
};
use crate::row::{cell_at, has_column, with_cell, without, Entries, Row};
use vstd::prelude::*;

verus! {

/// What a rule does to the column it names.
#[derive(Clone, Copy, Debug, PartialEq, Eq, Structural)]
pub enum RuleKind {
    /// Promote an integer cell to the instant that many seconds after the epoch.
    Timestamp,
    /// Promote an integer cell to a count of bytes.
    ByteSize,
    /// Delete the column.
    Removal,
}

/// One transform rule: a kind and the name of the column it applies to.
#[derive(Clone, Debug, PartialEq, Eq)]
pub struct Rule {
    pub kind: RuleKind,
    pub column: String,
}

/// A rule with its column name as a sequence of characters.
pub struct RuleView {
    pub kind: RuleKind,
    pub column: Seq<char>,
}

impl View for Rule {
    type V = RuleView;

    open spec fn view(&self) -> RuleView {
        RuleView { kind: self.kind, column: self.column@ }
    }
}

/// The byte count that a raw integer stands for: the integer itself, its 64
/// bits read as unsigned. A negative integer wraps round to a large count.
pub open spec fn byte_count(raw: i64) -> u64 {
    if raw >= 0 {
        raw as u64
    } else {
        (raw + 0x1_0000_0000_0000_0000) as u64
    }
}

/// Reads the 64 bits of `raw` as an unsigned count.
pub fn reinterpret(raw: i64) -> (bytes: u64)
    ensures
        bytes == byte_count(raw),
{
    if raw >= 0 {
        raw as u64
    } else {
        u64::MAX - ((-(raw + 1)) as u64)
    }
}

/// The cell that the timestamp rule leaves where it found `cell`.
pub open spec fn decoded(cell: Option<Cell>) -> Option<Cell> {
    match cell {
        Some(Cell::Int(seconds)) => Some(Cell::Date(seconds)),
        kept => kept,
    }
}

/// The cell that the byte-size rule leaves where it found `cell`.
pub open spec fn sized(cell: Option<Cell>) -> Option<Cell> {
    match cell {
        Some(Cell::Int(raw)) => Some(Cell::Filesize(byte_count(raw))),
        kept => kept,
    }
}

/// The timestamp rule on `entries`: an integer cell under `name` becomes a date.
pub open spec fn timestamp_rule(entries: Entries, name: Seq<char>) -> Entries {
    match cell_at(entries, name) {
        Some(Cell::Int(seconds)) => with_cell(entries, name, Cell::Date(seconds)),
        _ => entries,
    }
}

/// The byte-size rule on `entries`: an integer cell under `name` becomes a byte count.
pub open spec fn byte_size_rule(entries: Entries, name: Seq<char>) -> Entries {
    match cell_at(entries, name) {
        Some(Cell::Int(raw)) => with_cell(entries, name, Cell::Filesize(byte_count(raw))),
        _ => entries,
    }
}

/// The column-removal rule on `entries`.
pub open spec fn removal_rule(entries: Entries, name: Seq<char>) -> Entries {
    without(entries, name)
}

/// Replaces an integer cell under `key` by the instant that many whole
/// seconds after 1970-01-01T00:00:00 UTC. A missing column and a cell of any
/// other kind are left as they are.
pub fn convert_timestamp(row: &mut Row, key: &str)
    ensures
        final(row)@ == timestamp_rule(old(row)@, key@),
        cell_at(final(row)@, key@) == decoded(cell_at(old(row)@, key@)),
        !(cell_at(old(row)@, key@) matches Some(Cell::Int(_))) ==> final(row)@ == old(row)@,
        old(row).wf() ==> final(row).wf(),
{
    proof {
        lemma_timestamp_lookup(row@, key@, key@);
    }
    let seconds = match row.get(key) {
        Some(Cell::Int(seconds)) => *seconds,
        _ => { return ; },
    };
    row.insert(key.to_owned(), Cell::Date(seconds));
}

/// Replaces an integer cell under `key` by a byte count of the same 64 bits.
/// A missing column and a cell of any other kind are left as they are.
pub fn convert_byte_size(row: &mut Row, key: &str)
    ensures
        final(row)@ == byte_size_rule(old(row)@, key@),
        cell_at(final(row)@, key@) == sized(cell_at(old(row)@, key@)),
        !(cell_at(old(row)@, key@) matches Some(Cell::Int(_))) ==> final(row)@ == old(row)@,
        old(row).wf() ==> final(row).wf(),
{
    proof {
        lemma_byte_size_lookup(row@, key@, key@);
    }
    let raw = match row.get(key) {
        Some(Cell::Int(raw)) => *raw,
        _ => { return ; },
    };
    row.insert(key.to_owned(), Cell::Filesize(reinterpret(raw)));
}

/// Deletes the column called `key`, if the row has one.
pub fn remove_column(row: &mut Row, key: &str)
    ensures
        final(row)@ == removal_rule(old(row)@, key@),
        !has_column(old(row)@, key@) ==> final(row)@ == old(row)@,
        old(row).wf() ==> final(row).wf() && !has_column(final(row)@, key@),
{
    proof {
        if row.wf() {
            lemma_rule_settles(row@, RuleView { kind: RuleKind::Removal, column: key@ });
        }
    }
    row.remove(key);
}

/// What one rule makes of `entries`.
pub open spec fn rule_result(entries: Entries, rule: RuleView) -> Entries {
    match rule.kind {
        RuleKind::Timestamp => timestamp_rule(entries, rule.column),
        RuleKind::ByteSize => byte_size_rule(entries, rule.column),
        RuleKind::Removal => removal_rule(entries, rule.column),
    }
}

/// What a list of rules makes of `entries`, applied in list order.
pub open spec fn rules_result(entries: Entries, rules: Seq<RuleView>) -> Entries
    decreases rules.len(),
{
    if rules.len() == 0 {
        entries
    } else {
        rule_result(rules_result(entries, rules.drop_last()), rules.last())
    }
}

/// The rules of a list, each by its view.
pub open spec fn rule_views(rules: Seq<Rule>) -> Seq<RuleView> {
    Seq::new(rules.len(), |i: int| rules[i]@)
}

/// The rule list of each listing. Both decode `Created` and tag `Size`; the
/// image listing also drops four bookkeeping columns. `VirtualSize` is one of
/// the four: it is dropped, never converted.
pub open spec fn mode_rules(mode: Mode) -> Seq<RuleView> {
    match mode {
        Mode::Containers => seq![
            RuleView { kind: RuleKind::Timestamp, column: "Created"@ },
            RuleView { kind: RuleKind::ByteSize, column: "Size"@ },
        ],
        Mode::Images => seq![
            RuleView { kind: RuleKind::Timestamp, column: "Created"@ },
            RuleView { kind: RuleKind::ByteSize, column: "Size"@ },
            RuleView { kind: RuleKind::Removal, column: "VirtualSize"@ },
            RuleView { kind: RuleKind::Removal, column: "SharedSize"@ },
            RuleView { kind: RuleKind::Removal, column: "Containers"@ },
            RuleView { kind: RuleKind::Removal, column: "ParentId"@ },
        ],
    }
}

impl Rule {
    /// A rule of the given kind for the column called `column`.
    pub fn new(kind: RuleKind, column: &str) -> (rule: Rule)
        ensures
            rule@ == (RuleView { kind, column: column@ }),
    {
        Rule { kind, column: column.to_owned() }
    }

    /// Applies the rule to `row`, in place.
    pub fn apply(&self, row: &mut Row)
        ensures
            final(row)@ == rule_result(old(row)@, self@),
            old(row).wf() ==> final(row).wf(),
    {
        match self.kind {
            RuleKind::Timestamp => convert_timestamp(row, self.column.as_str()),
            RuleKind::ByteSize => convert_byte_size(row, self.column.as_str()),
            RuleKind::Removal => remove_column(row, self.column.as_str()),
        }
    }
}

/// Applies `rules` to `row` in list order, in place. A second application of
/// the same list would change nothing.
pub fn apply_rules(row: &mut Row, rules: &Vec<Rule>)
    ensures
        final(row)@ == rules_result(old(row)@, rule_views(rules@)),
        old(row).wf() ==> final(row).wf(),
        old(row).wf() ==> rules_result(final(row)@, rule_views(rules@)) == final(row)@,
{
    let ghost views = rule_views(rules@);
    proof {
        if row.wf() {
            lemma_rules_idempotent(row@, views);
        }
    }
    let mut done: usize = 0;
    while done < rules.len()
        invariant
            done <= rules.len(),
            views == rule_views(rules@),
            row@ == rules_result(old(row)@, views.take(done as int)),
            old(row).wf() ==> row.wf(),
        decreases rules.len() - done,
    {
        rules[done].apply(row);
        proof {
            let next = views.take(done + 1);
            assert(next.drop_last() == views.take(done as int));
            assert(next.last() == rules@[done as int]@);
        }
        done += 1;
    }
    assert(views.take(done as int) == views);
}

/// The rule list of `mode`.
pub fn rules_for(mode: Mode) -> (rules: Vec<Rule>)
    ensures
        rule_views(rules@) == mode_rules(mode),
{
    let mut rules: Vec<Rule> = Vec::new();
    rules.push(Rule::new(RuleKind::Timestamp, "Created"));
    rules.push(Rule::new(RuleKind::ByteSize, "Size"));
    match mode {
        Mode::Containers => {},
        Mode::Images => {
            rules.push(Rule::new(RuleKind::Removal, "VirtualSize"));
            rules.push(Rule::new(RuleKind::Removal, "SharedSize"));
            rules.push(Rule::new(RuleKind::Removal, "Containers"));
            rules.push(Rule::new(RuleKind::Removal, "ParentId"));
        },
    }
    rules
}

/// What the rules make of one value: a row is transformed, any other cell is kept.
pub open spec fn cleaned(before: Cell, after: Cell, rules: Seq<RuleView>) -> bool {
    match before {
        Cell::Row(row) => after matches Cell::Row(changed) && changed@ == rules_result(row@, rules),
        _ => after == before,
    }
}

/// Applies `rules` to `value` where it is a row; a value of any other kind is left alone.
pub fn row_cleanup(value: &mut Cell, rules: &Vec<Rule>)
    ensures
        cleaned(*old(value), *final(value), rule_views(rules@)),
{
    match value {
        Cell::Row(row) => apply_rules(row, rules),
        _ => {},
    }
}

/// What the rules make of a result set: as many values as before, in the same
/// order, each one cleaned by the same rules.
pub open spec fn transformed(before: Seq<Cell>, after: Seq<Cell>, rules: Seq<RuleView>) -> bool {
    &&& after.len() == before.len()
    &&& forall|i: int| 0 <= i < before.len() ==> cleaned(#[trigger] before[i], after[i], rules)
}

/// Applies the same `rules` to every value, in place and in order: no value is
/// added, dropped or moved.
pub fn transform(values: &mut Vec<Cell>, rules: &Vec<Rule>)
    ensures
        transformed(old(values)@, final(values)@, rule_views(rules@)),
{
    let mut done: usize = 0;
    while done < values.len()
        invariant
            done <= values.len(),
            values@.len() == old(values)@.len(),
            forall|i: int|
                0 <= i < done ==> cleaned(
                    #[trigger] old(values)@[i],
                    values@[i],
                    rule_views(rules@),
                ),
            forall|i: int| done <= i < values@.len() ==> values@[i] == old(values)@[i],
        decreases values.len() - done,
    {
        row_cleanup(&mut values[done], rules);
        done += 1;
    }
}

} // verus!
