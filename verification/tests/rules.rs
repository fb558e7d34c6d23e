use nu_dock::cell::Cell;
use nu_dock::mode::Mode;
use nu_dock::row::Row;
use nu_dock::rules::{
    apply_rules, convert_byte_size, convert_timestamp, reinterpret, remove_column, row_cleanup,
    rules_for, transform, Rule, RuleKind,
};

fn names_of(row: &Row) -> Vec<String> {
    let mut names = Vec::new();
    let mut index = 0;
    while let Some((name, _)) = row.column(index) {
        names.push(name.clone());
        index += 1;
    }
    names
}

fn row_of(columns: Vec<(&str, Cell)>) -> Row {
    let mut row = Row::new();
    for (name, cell) in columns {
        row.insert(name.to_string(), cell);
    }
    row
}

fn image_row() -> Row {
    row_of(vec![
        ("Id", Cell::Text("sha256:1".to_string())),
        ("ParentId", Cell::Text("".to_string())),
        ("RepoTags", Cell::List(vec![Cell::Text("alpine:latest".to_string())])),
        ("Created", Cell::Int(1700000000)),
        ("Size", Cell::Int(2048)),
        ("SharedSize", Cell::Int(-1)),
        ("VirtualSize", Cell::Int(2048)),
        ("Labels", Cell::Row(Row::new())),
        ("Containers", Cell::Int(-1)),
    ])
}

#[test]
fn timestamp_rule_turns_zero_into_the_epoch() {
    let mut row = row_of(vec![("Created", Cell::Int(0))]);
    convert_timestamp(&mut row, "Created");
    assert_eq!(row.get("Created"), Some(&Cell::Date(0)));
    assert_eq!(row.len(), 1);
}

#[test]
fn timestamp_rule_keeps_the_second_count() {
    let mut row = row_of(vec![("Id", Cell::Text("a".to_string())), ("Created", Cell::Int(1700000000))]);
    convert_timestamp(&mut row, "Created");
    assert_eq!(row.get("Created"), Some(&Cell::Date(1700000000)));
    assert_eq!(row.get("Id"), Some(&Cell::Text("a".to_string())));
    assert_eq!(names_of(&row), vec!["Id", "Created"]);
}

#[test]
fn timestamp_rule_takes_every_integer() {
    let mut row = row_of(vec![("Early", Cell::Int(i64::MIN)), ("Late", Cell::Int(i64::MAX)), ("Before", Cell::Int(-1))]);
    convert_timestamp(&mut row, "Early");
    convert_timestamp(&mut row, "Late");
    convert_timestamp(&mut row, "Before");
    assert_eq!(row.get("Early"), Some(&Cell::Date(i64::MIN)));
    assert_eq!(row.get("Late"), Some(&Cell::Date(i64::MAX)));
    assert_eq!(row.get("Before"), Some(&Cell::Date(-1)));
}

#[test]
fn timestamp_rule_leaves_a_date_untouched() {
    let mut row = row_of(vec![("Created", Cell::Date(42))]);
    convert_timestamp(&mut row, "Created");
    assert_eq!(row, row_of(vec![("Created", Cell::Date(42))]));
}

#[test]
fn timestamp_rule_leaves_other_kinds_untouched() {
    let before = vec![
        ("a", Cell::Absent),
        ("b", Cell::Bool(true)),
        ("c", Cell::Decimal("1.25".to_string())),
        ("d", Cell::Text("7".to_string())),
        ("e", Cell::Filesize(7)),
        ("f", Cell::Row(Row::new())),
        ("g", Cell::List(vec![Cell::Int(7)])),
    ];
    let mut row = row_of(before.clone());
    for name in ["a", "b", "c", "d", "e", "f", "g"] {
        convert_timestamp(&mut row, name);
        convert_byte_size(&mut row, name);
    }
    assert_eq!(row, row_of(before));
    assert_eq!(names_of(&row), vec!["a", "b", "c", "d", "e", "f", "g"]);
}

#[test]
fn timestamp_rule_on_missing_column_is_a_no_op() {
    let mut row = row_of(vec![("Size", Cell::Int(5))]);
    convert_timestamp(&mut row, "Created");
    assert_eq!(row, row_of(vec![("Size", Cell::Int(5))]));
}

#[test]
fn byte_size_rule_tags_one_mebibyte() {
    let mut row = row_of(vec![("Size", Cell::Int(1048576))]);
    convert_byte_size(&mut row, "Size");
    assert_eq!(row.get("Size"), Some(&Cell::Filesize(1048576)));
}

#[test]
fn byte_size_rule_leaves_a_text_cell_untouched() {
    let mut row = row_of(vec![("Size", Cell::Text("1048576".to_string()))]);
    convert_byte_size(&mut row, "Size");
    assert_eq!(row.get("Size"), Some(&Cell::Text("1048576".to_string())));
}

#[test]
fn byte_size_rule_on_missing_column_is_a_no_op() {
    let mut row = row_of(vec![("Created", Cell::Int(5))]);
    convert_byte_size(&mut row, "Size");
    assert_eq!(row, row_of(vec![("Created", Cell::Int(5))]));
}

#[test]
fn byte_size_rule_reads_a_negative_integer_as_its_bits() {
    let mut row = row_of(vec![("Size", Cell::Int(-1)), ("Other", Cell::Int(i64::MIN))]);
    convert_byte_size(&mut row, "Size");
    convert_byte_size(&mut row, "Other");
    assert_eq!(row.get("Size"), Some(&Cell::Filesize(u64::MAX)));
    assert_eq!(row.get("Other"), Some(&Cell::Filesize(1u64 << 63)));
}

#[test]
fn reinterpret_matches_the_unchecked_cast() {
    for raw in [0i64, 1, 2048, 1048576, i64::MAX, -1, -2, -2048, i64::MIN, i64::MIN + 1] {
        assert_eq!(reinterpret(raw), raw as u64);
    }
    assert_eq!(reinterpret(-2), 18446744073709551614);
    assert_eq!(reinterpret(i64::MAX), 9223372036854775807);
}

#[test]
fn removing_an_absent_column_is_a_no_op() {
    let mut row = image_row();
    remove_column(&mut row, "Ports");
    assert_eq!(row, image_row());
    assert_eq!(names_of(&row), names_of(&image_row()));
    let mut empty = Row::new();
    remove_column(&mut empty, "Ports");
    assert_eq!(empty.len(), 0);
}

#[test]
fn removing_a_column_deletes_it_whatever_it_holds() {
    let mut row = image_row();
    remove_column(&mut row, "Labels");
    remove_column(&mut row, "Created");
    assert_eq!(row.get("Labels"), None);
    assert_eq!(row.get("Created"), None);
    assert_eq!(row.len(), 7);
    assert_eq!(names_of(&row), vec!["Id", "ParentId", "RepoTags", "Containers", "Size", "SharedSize", "VirtualSize"]);
}

#[test]
fn rule_lists_of_the_two_listings() {
    assert_eq!(
        rules_for(Mode::Containers),
        vec![Rule::new(RuleKind::Timestamp, "Created"), Rule::new(RuleKind::ByteSize, "Size")]
    );
    assert_eq!(
        rules_for(Mode::Images),
        vec![
            Rule::new(RuleKind::Timestamp, "Created"),
            Rule::new(RuleKind::ByteSize, "Size"),
            Rule::new(RuleKind::Removal, "VirtualSize"),
            Rule::new(RuleKind::Removal, "SharedSize"),
            Rule::new(RuleKind::Removal, "Containers"),
            Rule::new(RuleKind::Removal, "ParentId"),
        ]
    );
    assert_eq!(Rule::new(RuleKind::Removal, "x"), Rule { kind: RuleKind::Removal, column: "x".to_string() });
}

#[test]
fn rule_apply_dispatches_on_its_kind() {
    let mut row = row_of(vec![("a", Cell::Int(3)), ("b", Cell::Int(4)), ("c", Cell::Int(5))]);
    Rule::new(RuleKind::Timestamp, "a").apply(&mut row);
    Rule::new(RuleKind::ByteSize, "b").apply(&mut row);
    Rule::new(RuleKind::Removal, "c").apply(&mut row);
    assert_eq!(row, row_of(vec![("a", Cell::Date(3)), ("b", Cell::Filesize(4))]));
    assert_eq!(names_of(&row), vec!["a", "b"]);
}

#[test]
fn image_rules_convert_and_drop_bookkeeping_columns() {
    let mut row = image_row();
    apply_rules(&mut row, &rules_for(Mode::Images));
    assert_eq!(row.get("VirtualSize"), None);
    assert_eq!(row.get("SharedSize"), None);
    assert_eq!(row.get("Containers"), None);
    assert_eq!(row.get("ParentId"), None);
    assert_eq!(row.get("Created"), Some(&Cell::Date(1700000000)));
    assert_eq!(row.get("Size"), Some(&Cell::Filesize(2048)));
    assert_eq!(row.get("Id"), Some(&Cell::Text("sha256:1".to_string())));
    assert_eq!(row.get("RepoTags"), Some(&Cell::List(vec![Cell::Text("alpine:latest".to_string())])));
    assert_eq!(row.get("Labels"), Some(&Cell::Row(Row::new())));
    assert_eq!(row.len(), 5);
    assert_eq!(names_of(&row), vec!["Id", "Labels", "RepoTags", "Created", "Size"]);
}

#[test]
fn container_rules_keep_every_column() {
    let mut row = image_row();
    apply_rules(&mut row, &rules_for(Mode::Containers));
    assert_eq!(names_of(&row), names_of(&image_row()));
    assert_eq!(row.get("Created"), Some(&Cell::Date(1700000000)));
    assert_eq!(row.get("Size"), Some(&Cell::Filesize(2048)));
    assert_eq!(row.get("VirtualSize"), Some(&Cell::Int(2048)));
    assert_eq!(row.get("Containers"), Some(&Cell::Int(-1)));
}

#[test]
fn applying_a_rule_list_twice_equals_applying_it_once() {
    for mode in [Mode::Containers, Mode::Images] {
        let rules = rules_for(mode);
        let mut once = image_row();
        apply_rules(&mut once, &rules);
        let mut twice = image_row();
        apply_rules(&mut twice, &rules);
        apply_rules(&mut twice, &rules);
        assert_eq!(once, twice);
        assert_eq!(names_of(&once), names_of(&twice));
    }
}

#[test]
fn applying_a_mixed_rule_list_twice_equals_applying_it_once() {
    let rules = vec![
        Rule::new(RuleKind::ByteSize, "Created"),
        Rule::new(RuleKind::Removal, "Id"),
        Rule::new(RuleKind::Timestamp, "Created"),
        Rule::new(RuleKind::Timestamp, "Containers"),
        Rule::new(RuleKind::Removal, "Size"),
        Rule::new(RuleKind::ByteSize, "Size"),
        Rule::new(RuleKind::Removal, "Id"),
    ];
    let mut once = image_row();
    apply_rules(&mut once, &rules);
    let mut twice = once.clone();
    apply_rules(&mut twice, &rules);
    assert_eq!(once, twice);
    assert_eq!(names_of(&once), names_of(&twice));
    assert_eq!(once.get("Created"), Some(&Cell::Filesize(1700000000)));
    assert_eq!(once.get("Containers"), Some(&Cell::Date(-1)));
    assert_eq!(once.get("Size"), None);
}

#[test]
fn empty_rule_list_changes_nothing() {
    let mut row = image_row();
    apply_rules(&mut row, &Vec::new());
    assert_eq!(row, image_row());
    assert_eq!(names_of(&row), names_of(&image_row()));
}

#[test]
fn rows_with_the_same_columns_keep_the_same_columns() {
    let mut first = image_row();
    let mut second = image_row();
    second.insert("Created".to_string(), Cell::Text("yesterday".to_string()));
    second.insert("Size".to_string(), Cell::Absent);
    let rules = rules_for(Mode::Images);
    apply_rules(&mut first, &rules);
    apply_rules(&mut second, &rules);
    assert_eq!(names_of(&first), names_of(&second));
    assert_eq!(second.get("Created"), Some(&Cell::Text("yesterday".to_string())));
    assert_eq!(second.get("Size"), Some(&Cell::Absent));
}

#[test]
fn row_cleanup_transforms_a_row_and_skips_any_other_value() {
    let rules = rules_for(Mode::Images);
    let mut value = Cell::Row(image_row());
    row_cleanup(&mut value, &rules);
    let mut expected = image_row();
    apply_rules(&mut expected, &rules);
    assert_eq!(value, Cell::Row(expected));
    let mut plain = Cell::Int(1700000000);
    row_cleanup(&mut plain, &rules);
    assert_eq!(plain, Cell::Int(1700000000));
    let mut list = Cell::List(vec![Cell::Row(image_row())]);
    row_cleanup(&mut list, &rules);
    assert_eq!(list, Cell::List(vec![Cell::Row(image_row())]));
}

#[test]
fn row_cleanup_leaves_nested_rows_alone() {
    let inner = row_of(vec![("Created", Cell::Int(5)), ("ParentId", Cell::Int(6))]);
    let mut value = Cell::Row(row_of(vec![("Created", Cell::Int(1)), ("Inner", Cell::Row(inner.clone()))]));
    row_cleanup(&mut value, &rules_for(Mode::Images));
    assert_eq!(
        value,
        Cell::Row(row_of(vec![("Created", Cell::Date(1)), ("Inner", Cell::Row(inner))]))
    );
}

#[test]
fn transform_keeps_count_and_order() {
    let mut values = vec![
        Cell::Row(row_of(vec![("Id", Cell::Text("first".to_string())), ("Created", Cell::Int(1))])),
        Cell::Text("not a row".to_string()),
        Cell::Row(row_of(vec![("Id", Cell::Text("third".to_string())), ("Size", Cell::Int(3))])),
    ];
    transform(&mut values, &rules_for(Mode::Containers));
    assert_eq!(
        values,
        vec![
            Cell::Row(row_of(vec![("Id", Cell::Text("first".to_string())), ("Created", Cell::Date(1))])),
            Cell::Text("not a row".to_string()),
            Cell::Row(row_of(vec![("Id", Cell::Text("third".to_string())), ("Size", Cell::Filesize(3))])),
        ]
    );
    let mut none: Vec<Cell> = Vec::new();
    transform(&mut none, &rules_for(Mode::Images));
    assert!(none.is_empty());
}
