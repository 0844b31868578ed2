use tuifs::navlist::StatefulList;

fn sample(names: &[&str]) -> StatefulList<String> {
    StatefulList::with_items(names.iter().map(|s| s.to_string()).collect())
}

#[test]
fn with_items_selects_first() {
    let l = sample(&["a.txt", "b.png", "c.pdf"]);
    assert_eq!(l.selected_index(), Some(0));
    assert_eq!(l.selected(), Some(&"a.txt".to_string()));
}

#[test]
fn with_items_empty_has_no_cursor() {
    let l = StatefulList::<String>::with_items(Vec::new());
    assert_eq!(l.selected_index(), None);
    assert_eq!(l.selected(), None);
}

#[test]
fn next_wraps_after_len_steps() {
    let mut l = sample(&["a.txt", "b.png", "c.pdf"]);
    l.next();
    assert_eq!(l.selected_index(), Some(1));
    l.next();
    assert_eq!(l.selected_index(), Some(2));
    l.next();
    assert_eq!(l.selected_index(), Some(0));
}

#[test]
fn next_full_cycle_from_middle() {
    let mut l = sample(&["a.txt", "b.png", "c.pdf", "d.jpg"]);
    l.next();
    assert_eq!(l.selected_index(), Some(1));
    for _ in 0..4 {
        l.next();
    }
    assert_eq!(l.selected_index(), Some(1));
}

#[test]
fn previous_undoes_next() {
    let mut l = sample(&["a.txt", "b.png", "c.pdf"]);
    l.next();
    l.next();
    l.previous();
    l.previous();
    assert_eq!(l.selected_index(), Some(0));
}

#[test]
fn previous_wraps_to_last() {
    let mut l = sample(&["a.txt", "b.png", "c.pdf"]);
    l.previous();
    assert_eq!(l.selected_index(), Some(2));
    l.next();
    assert_eq!(l.selected_index(), Some(0));
}

#[test]
fn replace_resets_cursor_to_first() {
    let mut l = sample(&["a.txt", "b.png", "c.pdf"]);
    l.next();
    l.next();
    l.replace(vec!["x.dat".to_string(), "y.dat".to_string()]);
    assert_eq!(l.selected_index(), Some(0));
    assert_eq!(l.items, vec!["x.dat".to_string(), "y.dat".to_string()]);
}

#[test]
fn replace_with_empty_clears_cursor() {
    let mut l = sample(&["a.txt", "b.png"]);
    l.next();
    l.replace(Vec::new());
    assert_eq!(l.selected_index(), None);
    assert!(l.items.is_empty());
}

#[test]
fn next_and_previous_on_empty_stay_put() {
    let mut l = StatefulList::<String>::new();
    l.next();
    assert_eq!(l.selected_index(), None);
    l.previous();
    assert_eq!(l.selected_index(), None);
}

#[test]
fn single_item_wraps_to_itself() {
    let mut l = sample(&["only.txt"]);
    l.next();
    assert_eq!(l.selected_index(), Some(0));
    l.previous();
    assert_eq!(l.selected_index(), Some(0));
}
