use tui_core::components::table::{Table, TableError, TableTrait};
use tui_core::components::{Size, UIElement};

fn strings(v: &[&str]) -> Vec<String> {
    v.iter().map(|s| s.to_string()).collect()
}

fn rows(v: &[&[&str]]) -> Vec<Vec<String>> {
    v.iter().map(|r| strings(r)).collect()
}

#[test]
fn table_round_trip() {
    let headers = strings(&["a", "b"]);
    let data = rows(&[&["1", "2"], &["3", "4"]]);
    let t = Table::new(&headers, data.clone()).unwrap();
    assert_eq!(t.headers(), headers);
    assert_eq!(t.data(), &data);
}

#[test]
fn table_mismatched_row_fails() {
    let headers = strings(&["a", "b"]);
    let data = rows(&[&["1", "2"], &["1"]]);
    let r = Table::new(&headers, data);
    match r {
        Err(e) => assert_eq!(e, TableError::RowLengthMismatch),
        Ok(_) => panic!("expected a construction failure"),
    }
}

#[test]
fn table_defaults() {
    let t = Table::new(&strings(&["h"]), rows(&[&["x"]])).unwrap();
    assert_eq!(t.current_page(), 0);
    assert_eq!(t.items_by_page(), 20);
    assert_eq!(t.z_index(), 0);
    assert_eq!(t.title(), "");
    assert!(t.updated());
    assert!(matches!(t.width(), Size::Auto));
    assert!(matches!(t.height(), Size::Auto));
    assert_eq!(t.border_vertical(), ' ');
    assert_eq!(t.border_horizontal(), ' ');
    assert_eq!(t.border_intersect(), ' ');
    assert_eq!(t.padding_vertical(), 1);
    assert_eq!(t.padding_horizontal(), 1);
}

#[test]
fn table_bordered_variant() {
    let t = Table::new_bordered(&strings(&["h"]), rows(&[&["x"]])).unwrap();
    assert_eq!(t.border_vertical(), '|');
    assert_eq!(t.border_horizontal(), '-');
    assert_eq!(t.border_intersect(), '+');
    assert_eq!(t.padding_vertical(), 1);
    assert_eq!(t.padding_horizontal(), 1);
    let bad = Table::new_bordered(&strings(&["h"]), rows(&[&["x", "y"]]));
    match bad {
        Err(e) => assert_eq!(e, TableError::RowLengthMismatch),
        Ok(_) => panic!("expected a construction failure"),
    }
}

#[test]
fn table_pagination() {
    let headers = strings(&["n"]);
    let data: Vec<Vec<String>> = (0..25).map(|i| vec![i.to_string()]).collect();
    let mut t = Table::new(&headers, data.clone()).unwrap();
    t.set_items_by_page(10);

    t.set_current_page(0);
    assert_eq!(t.visible_rows(), data[0..10].to_vec());

    t.set_current_page(2);
    assert_eq!(t.visible_rows(), data[20..25].to_vec());
    assert_eq!(t.visible_rows().len(), 5);

    t.set_current_page(3);
    assert!(t.visible_rows().is_empty());
}

#[test]
fn table_zero_items_by_page_shows_nothing() {
    let mut t = Table::new(&strings(&["n"]), rows(&[&["1"], &["2"]])).unwrap();
    t.set_items_by_page(0);
    assert!(t.visible_rows().is_empty());
    t.set_current_page(0);
    assert!(t.visible_rows().is_empty());
}

#[test]
fn table_empty_data() {
    let t = Table::new(&strings(&["a", "b"]), Vec::new()).unwrap();
    assert!(t.data().is_empty());
    assert!(t.visible_rows().is_empty());
}

#[test]
fn table_dirty_flag() {
    let mut t = Table::new(&strings(&["h"]), rows(&[&["x"]])).unwrap();
    assert!(t.updated());
    t.set_updated(false);
    assert!(!t.updated());
    t.set_title("inventory");
    assert!(t.updated());
    assert_eq!(t.title(), "inventory");
    t.set_updated(false);
    t.set_width(Size::Chars(12));
    assert!(t.updated());
    assert!(matches!(t.width(), Size::Chars(12)));
    t.set_updated(false);
    t.set_height(Size::Percents(40));
    assert!(t.updated());
    assert!(matches!(t.height(), Size::Percents(40)));
    t.set_updated(false);
    t.set_z_index(7);
    assert!(t.updated());
    assert_eq!(t.z_index(), 7);
    t.set_updated(false);
    t.set_current_page(3);
    assert!(t.updated());
    assert_eq!(t.current_page(), 3);
    t.set_updated(false);
    t.set_items_by_page(5);
    assert!(t.updated());
    assert_eq!(t.items_by_page(), 5);
    t.set_updated(false);
    assert!(!t.updated());
    // none of the capability setters touched the table's contents
    assert_eq!(t.headers(), strings(&["h"]));
    assert_eq!(t.data(), &rows(&[&["x"]]));
}
