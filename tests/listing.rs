use marcos::fs::listing::{is_hidden, listing_names, sorted_names, DirItem, EntryKind};
use marcos::browser::App;
use marcos::ui::tab::Tab;
use marcos::ui::view::MyView;

fn entries() -> Vec<DirItem> {
    vec![
        DirItem::new("b.txt".to_string(), EntryKind::File),
        DirItem::new("a.txt".to_string(), EntryKind::File),
        DirItem::new(".hidden".to_string(), EntryKind::File),
        DirItem::new("sub2".to_string(), EntryKind::Dir),
        DirItem::new("sub10".to_string(), EntryKind::Dir),
        DirItem::new("sub1".to_string(), EntryKind::Dir),
    ]
}

#[test]
fn listing_orders_dirs_then_files_alphanumerically() {
    let names = listing_names(&entries(), false);
    assert_eq!(names, vec!["sub1", "sub2", "sub10", "a.txt", "b.txt"]);
}

#[test]
fn listing_with_hidden_entries() {
    let names = listing_names(&entries(), true);
    assert_eq!(names, vec!["sub1", "sub2", "sub10", ".hidden", "a.txt", "b.txt"]);
}

#[test]
fn other_kinds_are_never_listed() {
    let mut e = entries();
    e.push(DirItem::new("socket".to_string(), EntryKind::Other));
    assert_eq!(listing_names(&e, true).len(), 6);
    assert_eq!(sorted_names(&e, EntryKind::Other, true), vec!["socket"]);
}

#[test]
fn item2_before_item10() {
    let e = vec![
        DirItem::new("item10".to_string(), EntryKind::File),
        DirItem::new("item2".to_string(), EntryKind::File),
    ];
    assert_eq!(sorted_names(&e, EntryKind::File, false), vec!["item2", "item10"]);
}

#[test]
fn hidden_names() {
    assert!(is_hidden(".git"));
    assert!(!is_hidden("git"));
    assert!(!is_hidden(""));
}

#[test]
fn path_operations_through_tabs_and_panes() {
    // parent: the tab's parent pane path
    let tab = Tab::from(1, &"/home/user".to_string()).unwrap();
    assert_eq!(tab.p_view, Some("/home".to_string()));
    let tab = Tab::from(1, &"/".to_string()).unwrap();
    assert_eq!(tab.p_view, None);
    // join: the value of each row
    let mut app = App::new();
    let tab = Tab::from(1, &"/".to_string()).unwrap();
    app.add_tab(tab, &vec![DirItem::new("etc".to_string(), EntryKind::Dir)], &vec![]);
    assert_eq!(app.current.get_item(0), Some(("etc", &"/etc".to_string())));
    let mut app = App::new();
    let tab = Tab::from(1, &"/home".to_string()).unwrap();
    app.add_tab(tab, &vec![DirItem::new("user".to_string(), EntryKind::Dir)], &vec![]);
    assert_eq!(app.current.get_item(0), Some(("user", &"/home/user".to_string())));
}

#[test]
fn my_view_names() {
    let v = MyView::from(
        "/home/user".to_string(),
        vec!["/home/user/a.txt".to_string(), "/home/user/sub".to_string()],
    );
    assert_eq!(v.count, 2);
    assert_eq!(v.get_name(), "user");
    assert_eq!(v.get_entries(), vec!["a.txt", "sub"]);
    let root = MyView::from("/".to_string(), vec![]);
    assert_eq!(root.get_name(), "");
    let empty = MyView::new();
    assert_eq!(empty.count, 0);
    assert!(empty.get_entries().is_empty());
}
