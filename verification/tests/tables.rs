use sozu_core::command::tables::{
    append_block_cells, append_copies, append_key_rows, collect_keys, collect_row, has_text,
    text_is_drawable, KeyedCells, Table,
};

fn strings(items: &[&str]) -> Vec<String> {
    items.iter().map(|s| s.to_string()).collect()
}

fn group(key: &str, cells: &[&str]) -> KeyedCells {
    KeyedCells { key: key.to_string(), cells: strings(cells) }
}

fn blocks() -> Vec<Vec<KeyedCells>> {
    vec![
        vec![group("b", &["1", "2"]), group("a", &["3", "4"])],
        vec![],
        vec![group("a", &["5", "6"]), group("c", &["7", "8"]), group("b", &["9", "10"])],
    ]
}

#[test]
fn has_text_finds_equal_strings() {
    let list = strings(&["x", "yy", ""]);
    assert!(has_text(&list, &"yy".to_string()));
    assert!(has_text(&list, &"".to_string()));
    assert!(!has_text(&list, &"y".to_string()));
    assert!(!has_text(&vec![], &"x".to_string()));
}

#[test]
fn append_copies_appends_in_order() {
    let mut cells = strings(&["a"]);
    append_copies(&mut cells, &strings(&["b", "c"]));
    assert_eq!(cells, strings(&["a", "b", "c"]));
    append_copies(&mut cells, &vec![]);
    assert_eq!(cells, strings(&["a", "b", "c"]));
}

#[test]
fn keys_come_once_in_order_of_first_occurrence() {
    assert_eq!(collect_keys(&blocks()), strings(&["b", "a", "c"]));
    assert_eq!(collect_keys(&vec![]), Vec::<String>::new());
    assert_eq!(collect_keys(&vec![vec![group("k", &[]), group("k", &["1"])]]), strings(&["k"]));
}

#[test]
fn row_has_a_block_for_every_process() {
    assert_eq!(collect_row(&blocks(), &"a".to_string(), 2), strings(&["a", "3", "4", "", "", "5", "6"]));
    assert_eq!(collect_row(&blocks(), &"c".to_string(), 2), strings(&["c", "", "", "", "", "7", "8"]));
    assert_eq!(collect_row(&blocks(), &"z".to_string(), 2), strings(&["z", "", "", "", "", "", ""]));
    assert_eq!(collect_row(&blocks(), &"b".to_string(), 0), strings(&["b"]));
    assert_eq!(collect_row(&vec![], &"b".to_string(), 2), strings(&["b"]));
}

#[test]
fn block_cells_are_fitted_to_the_width() {
    let block = vec![group("k", &["1"]), group("j", &["2", "3", "4"]), group("k", &["5", "6"])];
    let mut row = strings(&["x"]);
    append_block_cells(&mut row, &block, &"k".to_string(), 2);
    assert_eq!(row, strings(&["x", "1", ""]));
    append_block_cells(&mut row, &block, &"j".to_string(), 2);
    assert_eq!(row, strings(&["x", "1", "", "2", "3"]));
    append_block_cells(&mut row, &block, &"none".to_string(), 3);
    assert_eq!(row, strings(&["x", "1", "", "2", "3", "", "", ""]));
}

#[test]
fn rows_are_appended_below_what_is_there() {
    let mut rows = vec![strings(&["key", "w0", "w0", "w1", "w1", "w2", "w2"])];
    append_key_rows(&mut rows, &blocks(), 2);
    assert_eq!(
        rows,
        vec![
            strings(&["key", "w0", "w0", "w1", "w1", "w2", "w2"]),
            strings(&["b", "1", "2", "", "", "9", "10"]),
            strings(&["a", "3", "4", "", "", "5", "6"]),
            strings(&["c", "", "", "", "", "7", "8"]),
        ]
    );
}

#[test]
fn table_is_drawn_with_a_frame() {
    let table = Table { rows: vec![strings(&["Worker", "pid"]), strings(&["0", "4001"])] };
    let expected = "\
+--------+------+
| Worker | pid  |
+--------+------+
| 0      | 4001 |
+--------+------+
";
    assert_eq!(table.try_render().unwrap(), expected);
}

#[test]
fn drawing_depends_on_the_cells() {
    let one = Table { rows: vec![strings(&["a"])] };
    let other = Table { rows: vec![strings(&["b"])] };
    assert_ne!(one.try_render().unwrap(), other.try_render().unwrap());
    assert!(one.try_render().unwrap().contains("| a |"));
}

#[test]
fn empty_and_ragged_tables_are_drawn() {
    let empty = Table { rows: vec![] };
    assert_eq!(empty.try_render().unwrap(), "++\n++\n");
    let ragged = Table { rows: vec![strings(&["key"]), strings(&["k", "12"]), vec![]] };
    let expected = "\
+-----+----+
| key |    |
+-----+----+
| k   | 12 |
+-----+----+
|     |    |
+-----+----+
";
    assert_eq!(ragged.try_render().unwrap(), expected);
}

#[test]
fn cell_of_several_lines_makes_a_high_row() {
    let table = Table { rows: vec![strings(&["a\nbc", "d"])] };
    let expected = "\
+----+---+
| a  | d |
| bc |   |
+----+---+
";
    assert_eq!(table.try_render().unwrap(), expected);
}

#[test]
fn escape_character_is_not_drawn() {
    assert!(text_is_drawable(&"plain \u{1f} text [m".to_string()));
    assert!(text_is_drawable(&String::new()));
    assert!(!text_is_drawable(&"a\u{1b}".to_string()));
    let harmful = "\u{1b}[\u{644}\u{627}\u{644}\u{627}".to_string();
    assert!(!text_is_drawable(&harmful));
    let table = Table { rows: vec![strings(&["key"]), vec![harmful]] };
    assert!(!table.is_drawable());
    assert_eq!(table.try_render(), None);
    let arabic = Table { rows: vec![vec!["\u{644}\u{627}".to_string()]] };
    assert!(arabic.is_drawable());
    assert!(arabic.try_render().is_some());
    assert!(Table { rows: vec![] }.is_drawable());
}
