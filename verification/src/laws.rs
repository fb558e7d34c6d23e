//! What holds of the transform rules on every row and every rule list.
use crate::cell::Cell;
use crate::row::{
    cell_at, distinct_names, has_column, lemma_position, lemma_position_distinct,
    lemma_position_is, lemma_position_none, lemma_with_cell_distinct, lemma_with_cell_lookup,
    lemma_without_distinct, lemma_without_lookup, names, position, without, Entries,
};
use crate::mode::Mode;
use crate::rules::{
    byte_count, byte_size_rule, decoded, mode_rules, removal_rule, rule_result, rules_result,
    sized, timestamp_rule, RuleKind, RuleView,
};
use vstd::prelude::*;

verus! {

/// A rule is settled on `entries` when it finds nothing to do there: a
/// conversion finds no integer cell under its column, a removal finds no
/// column of its name.
pub open spec fn settled(entries: Entries, rule: RuleView) -> bool {
    match rule.kind {
        RuleKind::Timestamp | RuleKind::ByteSize => !(cell_at(entries, rule.column) matches Some(
            Cell::Int(_),
        )),
        RuleKind::Removal => !has_column(entries, rule.column),
    }
}

/// Two rows with the same names in the same order find every column at the same index.
pub proof fn lemma_position_by_names(a: Entries, b: Entries, name: Seq<char>)
    requires
        names(a) == names(b),
    ensures
        position(a, name) == position(b, name),
{
    lemma_position(a, name);
    lemma_position(b, name);
    assert(a.len() == names(a).len());
    assert(b.len() == names(b).len());
    assert forall|j: int| 0 <= j < a.len() implies a[j].0 == b[j].0 by {
        assert(names(a)[j] == a[j].0);
        assert(names(b)[j] == b[j].0);
    }
}

/// A rule changes nothing where it is settled.
pub proof fn lemma_settled_is_fixed(entries: Entries, rule: RuleView)
    requires
        settled(entries, rule),
    ensures
        rule_result(entries, rule) == entries,
{
}

/// Every rule keeps the names distinct.
pub proof fn lemma_rule_keeps_distinct(entries: Entries, rule: RuleView)
    requires
        distinct_names(entries),
    ensures
        distinct_names(rule_result(entries, rule)),
{
    match cell_at(entries, rule.column) {
        Some(Cell::Int(raw)) => {
            lemma_with_cell_distinct(entries, rule.column, Cell::Date(raw));
            lemma_with_cell_distinct(
                entries,
                rule.column,
                Cell::Filesize(byte_count(raw)),
            );
        },
        _ => {},
    }
    lemma_without_distinct(entries, rule.column);
}

/// Every rule list keeps the names distinct.
pub proof fn lemma_rules_keep_distinct(entries: Entries, rules: Seq<RuleView>)
    requires
        distinct_names(entries),
    ensures
        distinct_names(rules_result(entries, rules)),
    decreases rules.len(),
{
    if rules.len() > 0 {
        lemma_rules_keep_distinct(entries, rules.drop_last());
        lemma_rule_keeps_distinct(rules_result(entries, rules.drop_last()), rules.last());
    }
}

/// Once applied, a rule is settled.
pub proof fn lemma_rule_settles(entries: Entries, rule: RuleView)
    requires
        distinct_names(entries),
    ensures
        settled(rule_result(entries, rule), rule),
{
    let name = rule.column;
    let after = rule_result(entries, rule);
    lemma_position(entries, name);
    match rule.kind {
        RuleKind::Timestamp | RuleKind::ByteSize => {
            match position(entries, name) {
                Some(index) => {
                    if entries[index].1 is Int {
                        lemma_position_is(after, name, index);
                    }
                },
                None => {},
            }
        },
        RuleKind::Removal => {
            match position(entries, name) {
                Some(index) => {
                    lemma_position_none(after, name);
                },
                None => {},
            }
        },
    }
}

/// A rule that is settled stays settled whatever other rule is applied.
pub proof fn lemma_settled_is_stable(entries: Entries, rule: RuleView, other: RuleView)
    requires
        distinct_names(entries),
        settled(entries, rule),
    ensures
        settled(rule_result(entries, other), rule),
{
    let after = rule_result(entries, other);
    lemma_position(entries, other.column);
    lemma_position(entries, rule.column);
    lemma_position(after, rule.column);
    lemma_rule_keeps_distinct(entries, other);
    match position(after, rule.column) {
        Some(found) => {
            match other.kind {
                RuleKind::Timestamp | RuleKind::ByteSize => {
                    lemma_position_distinct(entries, rule.column, found);
                },
                RuleKind::Removal => {
                    match position(entries, other.column) {
                        Some(gone) => {
                            let source = if found == gone {
                                entries.len() - 1
                            } else {
                                found
                            };
                            assert(after[found] == entries[source]);
                            lemma_position_distinct(entries, rule.column, source);
                        },
                        None => {},
                    }
                },
            }
        },
        None => {},
    }
}

/// After a rule list has been applied, each of its rules is settled.
pub proof fn lemma_rules_settle(entries: Entries, rules: Seq<RuleView>, index: int)
    requires
        distinct_names(entries),
        0 <= index < rules.len(),
    ensures
        settled(rules_result(entries, rules), rules[index]),
    decreases rules.len(),
{
    let before = rules_result(entries, rules.drop_last());
    lemma_rules_keep_distinct(entries, rules.drop_last());
    if index == rules.len() - 1 {
        lemma_rule_settles(before, rules.last());
    } else {
        lemma_rules_settle(entries, rules.drop_last(), index);
        lemma_settled_is_stable(before, rules[index], rules.last());
    }
}

/// A rule list changes nothing where each of its rules is settled.
pub proof fn lemma_settled_rules_are_fixed(entries: Entries, rules: Seq<RuleView>)
    requires
        forall|i: int| 0 <= i < rules.len() ==> settled(entries, #[trigger] rules[i]),
    ensures
        rules_result(entries, rules) == entries,
    decreases rules.len(),
{
    if rules.len() > 0 {
        lemma_settled_rules_are_fixed(entries, rules.drop_last());
        lemma_settled_is_fixed(entries, rules[rules.len() - 1]);
    }
}

/// Idempotence: applying a rule list to a row twice gives the same row as
/// applying it once.
pub proof fn lemma_rules_idempotent(entries: Entries, rules: Seq<RuleView>)
    requires
        distinct_names(entries),
    ensures
        rules_result(rules_result(entries, rules), rules) == rules_result(entries, rules),
{
    let once = rules_result(entries, rules);
    assert forall|i: int| 0 <= i < rules.len() implies settled(once, #[trigger] rules[i]) by {
        lemma_rules_settle(entries, rules, i);
    }
    lemma_settled_rules_are_fixed(once, rules);
}

/// The timestamp rule, column by column: an integer under its column becomes
/// the instant of that many seconds, every other cell stays, and no column is
/// added, removed or moved.
pub proof fn lemma_timestamp_lookup(entries: Entries, name: Seq<char>, other: Seq<char>)
    ensures
        cell_at(timestamp_rule(entries, name), other) == if other == name {
            decoded(cell_at(entries, name))
        } else {
            cell_at(entries, other)
        },
        names(timestamp_rule(entries, name)) == names(entries),
{
    match cell_at(entries, name) {
        Some(Cell::Int(seconds)) => {
            lemma_with_cell_lookup(entries, name, Cell::Date(seconds), other);
        },
        _ => {},
    }
}

/// The byte-size rule, column by column: an integer under its column becomes a
/// byte count, every other cell stays, and no column is added, removed or moved.
pub proof fn lemma_byte_size_lookup(entries: Entries, name: Seq<char>, other: Seq<char>)
    ensures
        cell_at(byte_size_rule(entries, name), other) == if other == name {
            sized(cell_at(entries, name))
        } else {
            cell_at(entries, other)
        },
        names(byte_size_rule(entries, name)) == names(entries),
{
    match cell_at(entries, name) {
        Some(Cell::Int(raw)) => {
            lemma_with_cell_lookup(entries, name, Cell::Filesize(byte_count(raw)), other);
        },
        _ => {},
    }
}

/// Removing a column that the row does not have is a no-op.
pub proof fn lemma_removal_of_absent(entries: Entries, name: Seq<char>)
    requires
        !has_column(entries, name),
    ensures
        removal_rule(entries, name) == entries,
{
}

/// A conversion rule leaves a cell that is not an integer untouched, and with it the row.
pub proof fn lemma_conversion_of_other_kind(entries: Entries, name: Seq<char>)
    requires
        !(cell_at(entries, name) matches Some(Cell::Int(_))),
    ensures
        timestamp_rule(entries, name) == entries,
        byte_size_rule(entries, name) == entries,
{
}

/// Two rows with the same column names in the same order still have the same
/// column names in the same order after the same rule.
pub proof fn lemma_rule_is_uniform(a: Entries, b: Entries, rule: RuleView)
    requires
        names(a) == names(b),
    ensures
        names(rule_result(a, rule)) == names(rule_result(b, rule)),
{
    let name = rule.column;
    lemma_position_by_names(a, b, name);
    lemma_position(a, name);
    lemma_position(b, name);
    assert(a.len() == names(a).len());
    assert(b.len() == names(b).len());
    match rule.kind {
        RuleKind::Timestamp => {
            lemma_timestamp_lookup(a, name, name);
            lemma_timestamp_lookup(b, name, name);
        },
        RuleKind::ByteSize => {
            lemma_byte_size_lookup(a, name, name);
            lemma_byte_size_lookup(b, name, name);
        },
        RuleKind::Removal => {
            let a2 = rule_result(a, rule);
            let b2 = rule_result(b, rule);
            assert forall|j: int| 0 <= j < a.len() implies a[j].0 == b[j].0 by {
                assert(names(a)[j] == a[j].0);
                assert(names(b)[j] == b[j].0);
            }
            assert(names(a2) =~= names(b2));
        },
    }
}

/// Uniformity: rows that enter a rule list with the same columns leave it with
/// the same columns, in the same order.
pub proof fn lemma_rules_are_uniform(a: Entries, b: Entries, rules: Seq<RuleView>)
    requires
        names(a) == names(b),
    ensures
        names(rules_result(a, rules)) == names(rules_result(b, rules)),
    decreases rules.len(),
{
    if rules.len() > 0 {
        lemma_rules_are_uniform(a, b, rules.drop_last());
        lemma_rule_is_uniform(
            rules_result(a, rules.drop_last()),
            rules_result(b, rules.drop_last()),
            rules.last(),
        );
    }
}

/// Promotion goes one way: a rule never makes an integer cell. An integer
/// found after a rule was there before it, under the same name.
pub proof fn lemma_rule_makes_no_integer(entries: Entries, rule: RuleView, name: Seq<char>)
    requires
        distinct_names(entries),
        cell_at(rule_result(entries, rule), name) is Some,
        cell_at(rule_result(entries, rule), name)->0 is Int,
    ensures
        cell_at(entries, name) == cell_at(rule_result(entries, rule), name),
{
    match rule.kind {
        RuleKind::Timestamp => lemma_timestamp_lookup(entries, rule.column, name),
        RuleKind::ByteSize => lemma_byte_size_lookup(entries, rule.column, name),
        RuleKind::Removal => lemma_without_lookup(entries, rule.column, name),
    }
}

/// Promotion goes one way through a whole rule list, too.
pub proof fn lemma_rules_make_no_integer(entries: Entries, rules: Seq<RuleView>, name: Seq<char>)
    requires
        distinct_names(entries),
        cell_at(rules_result(entries, rules), name) is Some,
        cell_at(rules_result(entries, rules), name)->0 is Int,
    ensures
        cell_at(entries, name) == cell_at(rules_result(entries, rules), name),
    decreases rules.len(),
{
    if rules.len() > 0 {
        let before = rules_result(entries, rules.drop_last());
        lemma_rules_keep_distinct(entries, rules.drop_last());
        lemma_rule_makes_no_integer(before, rules.last(), name);
        lemma_rules_make_no_integer(entries, rules.drop_last(), name);
    }
}

/// No rule adds a column: after any rule list a row has at most the columns it had.
pub proof fn lemma_rules_add_no_column(entries: Entries, rules: Seq<RuleView>)
    ensures
        rules_result(entries, rules).len() <= entries.len(),
    decreases rules.len(),
{
    if rules.len() > 0 {
        let before = rules_result(entries, rules.drop_last());
        lemma_rules_add_no_column(entries, rules.drop_last());
        lemma_position(before, rules.last().column);
    }
}

/// Whether the image listing drops the column called `name`.
pub open spec fn is_bookkeeping(name: Seq<char>) -> bool {
    name == "VirtualSize"@ || name == "SharedSize"@ || name == "Containers"@ || name
        == "ParentId"@
}

/// What a lookup finds in a row after the rules of `mode`: `Created` decoded,
/// `Size` tagged, the four bookkeeping columns gone from an image row, and
/// every other column as it was.
pub open spec fn listed(mode: Mode, entries: Entries, name: Seq<char>) -> Option<Cell> {
    if name == "Created"@ {
        decoded(cell_at(entries, name))
    } else if name == "Size"@ {
        sized(cell_at(entries, name))
    } else if mode == Mode::Images && is_bookkeeping(name) {
        None
    } else {
        cell_at(entries, name)
    }
}

/// The rule list of each listing, column by column.
pub proof fn lemma_mode_rules_lookup(mode: Mode, entries: Entries, name: Seq<char>)
    requires
        distinct_names(entries),
    ensures
        cell_at(rules_result(entries, mode_rules(mode)), name) == listed(mode, entries, name),
{
    reveal_strlit("Created");
    reveal_strlit("Size");
    reveal_strlit("VirtualSize");
    reveal_strlit("SharedSize");
    reveal_strlit("Containers");
    reveal_strlit("ParentId");
    let created = "Created"@;
    let size = "Size"@;
    let rules = mode_rules(mode);
    let r0 = entries;
    let r1 = timestamp_rule(r0, created);
    let r2 = byte_size_rule(r1, size);
    assert(created[0] == 'C' && size[0] == 'S');
    lemma_timestamp_lookup(r0, created, name);
    lemma_timestamp_lookup(r0, created, size);
    lemma_byte_size_lookup(r1, size, name);
    lemma_rule_keeps_distinct(r0, rules[0]);
    lemma_rule_keeps_distinct(r1, rules[1]);
    assert(rules_result(entries, rules.take(0)) == r0) by {
        reveal_with_fuel(rules_result, 2);
    }
    assert(rules.take(1).drop_last() == rules.take(0));
    assert(rules_result(entries, rules.take(1)) == r1);
    assert(rules.take(2).drop_last() == rules.take(1));
    assert(rules_result(entries, rules.take(2)) == r2);
    match mode {
        Mode::Containers => {
            assert(rules.take(2) == rules);
        },
        Mode::Images => {
            let virtual_size = "VirtualSize"@;
            let shared_size = "SharedSize"@;
            let containers = "Containers"@;
            let parent_id = "ParentId"@;
            assert(virtual_size[0] == 'V' && shared_size[0] == 'S' && containers[0] == 'C'
                && parent_id[0] == 'P');
            assert(shared_size[1] == 'h' && size[1] == 'i' && containers[1] == 'o' && created[1]
                == 'r');
            let r3 = without(r2, virtual_size);
            let r4 = without(r3, shared_size);
            let r5 = without(r4, containers);
            let r6 = without(r5, parent_id);
            lemma_without_lookup(r2, virtual_size, name);
            lemma_rule_keeps_distinct(r2, rules[2]);
            lemma_without_lookup(r3, shared_size, name);
            lemma_rule_keeps_distinct(r3, rules[3]);
            lemma_without_lookup(r4, containers, name);
            lemma_rule_keeps_distinct(r4, rules[4]);
            lemma_without_lookup(r5, parent_id, name);
            assert(rules.take(3).drop_last() == rules.take(2));
            assert(rules_result(entries, rules.take(3)) == r3);
            assert(rules.take(4).drop_last() == rules.take(3));
            assert(rules_result(entries, rules.take(4)) == r4);
            assert(rules.take(5).drop_last() == rules.take(4));
            assert(rules_result(entries, rules.take(5)) == r5);
            assert(rules.take(6).drop_last() == rules.take(5));
            assert(rules_result(entries, rules.take(6)) == r6);
            assert(rules.take(6) == rules);
        },
    }
}

} // verus!
