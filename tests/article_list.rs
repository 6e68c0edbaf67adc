use headlines::article::{ArticleItem, ArticleList, Status};

fn list_of(pairs: &[(&str, &str)]) -> ArticleList {
    let entries: Vec<(String, String)> =
        pairs.iter().map(|(h, d)| (h.to_string(), d.to_string())).collect();
    let mut list = ArticleList::new();
    list.replace_all(&entries);
    list
}

fn statuses(list: &ArticleList) -> Vec<Status> {
    (0..list.len()).map(|i| list.item(i).status()).collect()
}

#[test]
fn replace_all_keeps_order_and_starts_unread() {
    let list = list_of(&[("A", "a"), ("B", "b"), ("C", "c")]);
    assert_eq!(list.len(), 3);
    assert_eq!(list.item(0).headline(), "A");
    assert_eq!(list.item(1).detail(), "b");
    assert_eq!(list.item(2).headline(), "C");
    assert_eq!(statuses(&list), vec![Status::Unread; 3]);
    assert_eq!(list.selected(), None);
}

#[test]
fn replace_all_resets_selection() {
    let mut list = list_of(&[("A", "a"), ("B", "b")]);
    list.select_last();
    assert_eq!(list.selected(), Some(1));
    list.replace_all(&vec![("C".to_string(), "c".to_string())]);
    assert_eq!(list.selected(), None);
    assert_eq!(list.len(), 1);
    list.select_first();
    list.replace_all(&Vec::new());
    assert_eq!(list.selected(), None);
    assert_eq!(list.len(), 0);
}

#[test]
fn next_and_previous_stop_at_the_ends() {
    let mut list = list_of(&[("A", "a"), ("B", "b"), ("C", "c")]);
    list.select_next();
    assert_eq!(list.selected(), Some(0));
    list.select_previous();
    assert_eq!(list.selected(), Some(0));
    list.select_next();
    list.select_next();
    list.select_next();
    list.select_next();
    assert_eq!(list.selected(), Some(2));
}

#[test]
fn previous_without_cursor_selects_last() {
    let mut list = list_of(&[("A", "a"), ("B", "b"), ("C", "c")]);
    list.select_previous();
    assert_eq!(list.selected(), Some(2));
}

#[test]
fn first_last_and_none() {
    let mut list = list_of(&[("A", "a"), ("B", "b"), ("C", "c"), ("D", "d")]);
    list.select_last();
    assert_eq!(list.selected(), Some(3));
    list.select_first();
    assert_eq!(list.selected(), Some(0));
    list.select_none();
    assert_eq!(list.selected(), None);
}

#[test]
fn moves_never_leave_the_list() {
    let mut list = list_of(&[("A", "a"), ("B", "b"), ("C", "c")]);
    let pattern = [true, true, false, true, true, true, true, false, false, false, false, true];
    for forward in pattern {
        if forward {
            list.select_next();
        } else {
            list.select_previous();
        }
        let i = list.selected().expect("a move on a non-empty list selects an article");
        assert!(i < list.len());
    }
}

#[test]
fn none_then_next_selects_first() {
    let mut list = list_of(&[("A", "a"), ("B", "b"), ("C", "c")]);
    list.select_last();
    list.select_none();
    list.select_next();
    assert_eq!(list.selected(), Some(0));
}

#[test]
fn toggle_twice_restores_status() {
    let mut list = list_of(&[("A", "a"), ("B", "b")]);
    list.select_last();
    list.toggle_selected_status();
    assert_eq!(statuses(&list), vec![Status::Unread, Status::Completed]);
    list.toggle_selected_status();
    assert_eq!(statuses(&list), vec![Status::Unread, Status::Unread]);
}

#[test]
fn toggle_without_selection_changes_nothing() {
    let mut list = list_of(&[("A", "a"), ("B", "b")]);
    list.toggle_selected_status();
    assert_eq!(statuses(&list), vec![Status::Unread, Status::Unread]);
    assert_eq!(list.selected(), None);
}

#[test]
fn two_item_walkthrough() {
    let mut list = list_of(&[("A", ""), ("B", "")]);
    assert_eq!(list.selected(), None);
    list.select_next();
    assert_eq!(list.selected(), Some(0));
    list.toggle_selected_status();
    assert_eq!(list.item(0).status(), Status::Completed);
    list.select_next();
    assert_eq!(list.selected(), Some(1));
    list.toggle_selected_status();
    assert_eq!(list.item(1).status(), Status::Completed);
    list.select_previous();
    assert_eq!(list.selected(), Some(0));
    assert_eq!(list.item(0).status(), Status::Completed);
}

#[test]
fn empty_list_ignores_moves_and_toggle() {
    let mut list = ArticleList::new();
    list.select_next();
    assert_eq!(list.selected(), None);
    list.select_previous();
    assert_eq!(list.selected(), None);
    list.select_first();
    list.select_last();
    assert_eq!(list.selected(), None);
    list.toggle_selected_status();
    assert_eq!(list.len(), 0);
}

#[test]
fn item_new_and_flip() {
    let item = ArticleItem::new(Status::Completed, "Head", "Body");
    assert_eq!(item.headline(), "Head");
    assert_eq!(item.detail(), "Body");
    assert_eq!(item.status(), Status::Completed);
    assert_eq!(Status::Completed.flip(), Status::Unread);
    assert_eq!(Status::Unread.flip(), Status::Completed);
}
