use thw_dash::list::SelectableList;
use thw_dash::record::ThwDatum;

fn rec(title: &str, forum: &str, href: &str) -> ThwDatum {
    ThwDatum { title: title.to_string(), forum: forum.to_string(), href: href.to_string() }
}

#[test]
fn insert_goes_to_front() {
    let mut l: SelectableList<ThwDatum> = SelectableList::new();
    l.insert(rec("a", "Maps", "a1"));
    l.insert(rec("b", "Maps", "b1"));
    assert_eq!(l.items.len(), 2);
    assert_eq!(l.items[0].title, "b");
    assert_eq!(l.items[1].title, "a");
}

#[test]
fn insert_same_record_twice_keeps_one_entry() {
    let mut l: SelectableList<ThwDatum> = SelectableList::new();
    l.insert(rec("a", "Maps", "a1"));
    l.insert(rec("a", "Maps", "a1"));
    assert_eq!(l.items.len(), 1);
    assert_eq!(l.items[0].title, "a");
}

#[test]
fn insert_differing_in_one_field_is_new() {
    let mut l: SelectableList<ThwDatum> = SelectableList::new();
    l.insert(rec("a", "Maps", "a1"));
    l.insert(rec("a", "Maps", "a2"));
    assert_eq!(l.items.len(), 2);
}

#[test]
fn cursor_stays_absent_on_empty_list() {
    let mut l: SelectableList<ThwDatum> = SelectableList::new();
    l.next();
    assert_eq!(l.cursor, None);
    l.previous();
    assert_eq!(l.cursor, None);
}

#[test]
fn cursor_wraps_both_ways() {
    let mut l: SelectableList<ThwDatum> = SelectableList::new();
    l.insert(rec("a", "Maps", "a1"));
    l.insert(rec("b", "Maps", "b1"));
    l.insert(rec("c", "Maps", "c1"));
    l.next();
    assert_eq!(l.cursor, Some(0));
    l.next();
    assert_eq!(l.cursor, Some(1));
    l.next();
    assert_eq!(l.cursor, Some(2));
    l.next();
    assert_eq!(l.cursor, Some(0));
    l.previous();
    assert_eq!(l.cursor, Some(2));
    l.previous();
    assert_eq!(l.cursor, Some(1));
}

#[test]
fn cursor_valid_after_any_op_sequence() {
    let mut l: SelectableList<ThwDatum> = SelectableList::new();
    let check = |l: &SelectableList<ThwDatum>| match l.cursor {
        None => true,
        Some(i) => i < l.items.len(),
    };
    assert!(check(&l));
    l.next();
    assert!(check(&l));
    l.insert(rec("a", "Maps", "a1"));
    assert!(check(&l));
    l.previous();
    assert!(check(&l));
    l.insert(rec("b", "Maps", "b1"));
    assert!(check(&l));
    l.next();
    l.next();
    l.next();
    assert!(check(&l));
    l.insert(rec("b", "Maps", "b1"));
    l.previous();
    l.previous();
    assert!(check(&l));
}

#[test]
fn selected_reports_cursor() {
    let mut l: SelectableList<ThwDatum> = SelectableList::new();
    assert_eq!(l.selected(), None);
    l.insert(rec("a", "Maps", "a1"));
    l.next();
    assert_eq!(l.selected(), Some(0));
}
