use nu_dock::cell::Cell;
use nu_dock::row::Row;

fn names_of(row: &Row) -> Vec<String> {
    let mut names = Vec::new();
    let mut index = 0;
    while let Some((name, _)) = row.column(index) {
        names.push(name.clone());
        index += 1;
    }
    names
}

fn sample() -> Row {
    let mut row = Row::new();
    row.insert("Id".to_string(), Cell::Text("abc".to_string()));
    row.insert("Created".to_string(), Cell::Int(1700000000));
    row.insert("Size".to_string(), Cell::Int(2048));
    row.insert("Labels".to_string(), Cell::Absent);
    row
}

#[test]
fn new_row_is_empty() {
    let row = Row::new();
    assert_eq!(row.len(), 0);
    assert_eq!(row.get("Id"), None);
    assert!(row.column(0).is_none());
}

#[test]
fn insert_appends_new_columns_in_order() {
    let row = sample();
    assert_eq!(row.len(), 4);
    assert_eq!(names_of(&row), vec!["Id", "Created", "Size", "Labels"]);
    assert_eq!(row.get("Size"), Some(&Cell::Int(2048)));
    assert_eq!(row.get("size"), None);
}

#[test]
fn insert_on_existing_column_keeps_its_place_and_returns_old_cell() {
    let mut row = sample();
    let previous = row.insert("Created".to_string(), Cell::Bool(true));
    assert_eq!(previous, Some(Cell::Int(1700000000)));
    assert_eq!(row.len(), 4);
    assert_eq!(names_of(&row), vec!["Id", "Created", "Size", "Labels"]);
    assert_eq!(row.get("Created"), Some(&Cell::Bool(true)));
}

#[test]
fn insert_of_new_column_returns_none() {
    let mut row = sample();
    assert_eq!(row.insert("State".to_string(), Cell::Text("running".to_string())), None);
    assert_eq!(row.len(), 5);
    assert_eq!(row.column(4), Some((&"State".to_string(), &Cell::Text("running".to_string()))));
}

#[test]
fn remove_moves_last_column_into_the_gap() {
    let mut row = sample();
    let removed = row.remove("Id");
    assert_eq!(removed, Some(Cell::Text("abc".to_string())));
    assert_eq!(names_of(&row), vec!["Labels", "Created", "Size"]);
    assert_eq!(row.get("Id"), None);
    assert_eq!(row.get("Labels"), Some(&Cell::Absent));
}

#[test]
fn remove_of_last_column_keeps_the_others_in_place() {
    let mut row = sample();
    assert_eq!(row.remove("Labels"), Some(Cell::Absent));
    assert_eq!(names_of(&row), vec!["Id", "Created", "Size"]);
}

#[test]
fn remove_of_missing_column_changes_nothing() {
    let mut row = sample();
    assert_eq!(row.remove("Ports"), None);
    assert_eq!(row, sample());
    assert_eq!(names_of(&row), vec!["Id", "Created", "Size", "Labels"]);
}

#[test]
fn column_gives_name_and_cell_by_index() {
    let row = sample();
    assert_eq!(row.column(1), Some((&"Created".to_string(), &Cell::Int(1700000000))));
    assert_eq!(row.column(3), Some((&"Labels".to_string(), &Cell::Absent)));
    assert_eq!(row.column(4), None);
}

#[test]
fn clone_keeps_columns_and_order() {
    let mut row = sample();
    row.remove("Id");
    let copy = row.clone();
    assert_eq!(names_of(&copy), vec!["Labels", "Created", "Size"]);
    assert_eq!(copy, row);
    row.remove("Size");
    assert_eq!(copy.len(), 3);
    assert_eq!(row.len(), 2);
}

#[test]
fn cell_clone_copies_nested_values() {
    let nested = Cell::List(vec![
        Cell::Row(sample()),
        Cell::Decimal("1.5".to_string()),
        Cell::List(vec![Cell::Date(0), Cell::Filesize(7), Cell::Bool(false)]),
    ]);
    let copy = nested.clone();
    assert_eq!(copy, nested);
}
