use marcos::browser::{start_path, App};
use marcos::error::ErrorKind;
use marcos::event::Event;
use marcos::fs::listing::{DirItem, EntryKind};
use marcos::ui::focus_memory::FocusMemory;
use marcos::ui::tab::Tab;

fn dir(n: &str) -> DirItem {
    DirItem::new(n.to_string(), EntryKind::Dir)
}

fn file(n: &str) -> DirItem {
    DirItem::new(n.to_string(), EntryKind::File)
}

#[test]
fn forward_then_back_scenario() {
    let start = "/home/user/project".to_string();
    let mut tab = Tab::from(1, &start).unwrap();
    assert_eq!(tab.c_view, "/home/user/project");
    assert_eq!(tab.p_view, Some("/home/user".to_string()));
    assert!(tab.go_forward("/home/user/project/src".to_string(), true).is_ok());
    assert_eq!(tab.c_view, "/home/user/project/src");
    assert_eq!(tab.p_view, Some("/home/user/project".to_string()));
    tab.go_back();
    assert_eq!(tab.c_view, "/home/user/project");
    assert_eq!(tab.p_view, Some("/home/user".to_string()));
}

#[test]
fn back_at_root_is_a_no_op() {
    let mut tab = Tab::from(1, &"/".to_string()).unwrap();
    assert_eq!(tab.p_view, None);
    assert!(tab.at_root());
    tab.go_back();
    tab.go_back();
    assert_eq!(tab.c_view, "/");
    assert_eq!(tab.p_view, None);
}

#[test]
fn a_directory_named_root_is_not_the_root() {
    let mut tab = Tab::from(1, &"root".to_string()).unwrap();
    assert!(!tab.at_root());
    assert!(tab.go_forward("root/x".to_string(), true).is_ok());
    assert_eq!(tab.p_view, Some("root".to_string()));
    tab.go_back();
    assert_eq!(tab.c_view, "root");
    assert_eq!(tab.p_view, Some("".to_string()));
}

#[test]
fn back_into_root() {
    let mut tab = Tab::from(1, &"/home".to_string()).unwrap();
    assert_eq!(tab.p_view, Some("/".to_string()));
    tab.go_back();
    assert_eq!(tab.c_view, "/");
    assert_eq!(tab.p_view, None);
}

#[test]
fn focus_memory_updates_in_place() {
    let mut m = FocusMemory::new();
    assert_eq!(m.get(&"/a".to_string()), None);
    m.insert("/a".to_string(), 3);
    m.insert("/b".to_string(), 1);
    m.insert("/a".to_string(), 5);
    assert_eq!(m.get(&"/a".to_string()), Some(5));
    assert_eq!(m.get(&"/b".to_string()), Some(1));
}

fn project_listing() -> Vec<DirItem> {
    vec![file("README"), dir("src"), dir("docs"), dir(".git"), dir("assets")]
}

fn user_listing() -> Vec<DirItem> {
    vec![dir("music"), dir("project"), file("notes.txt")]
}

#[test]
fn add_tab_fills_both_panes() {
    let mut app = App::new();
    let tab = Tab::from(1, &"/home/user/project".to_string()).unwrap();
    app.add_tab(tab, &project_listing(), &user_listing());
    assert_eq!(app.current.len(), 4);
    assert_eq!(app.current.get_item(0), Some(("assets", &"/home/user/project/assets".to_string())));
    assert_eq!(app.current.get_item(3), Some(("README", &"/home/user/project/README".to_string())));
    assert_eq!(app.current.focus(), 0);
    assert_eq!(app.parent.len(), 3);
    assert_eq!(app.parent.focus(), 1);
    assert!(!app.parent.is_enabled());
}

#[test]
fn root_parent_pane_shows_slash() {
    let mut app = App::new();
    let tab = Tab::from(1, &"/".to_string()).unwrap();
    app.add_tab(tab, &vec![dir("home"), dir("etc")], &vec![]);
    assert_eq!(app.parent.len(), 1);
    assert_eq!(app.parent.get_item(0), Some(("/", &"/".to_string())));
    assert!(!app.parent.is_enabled());
    assert_eq!(app.current.get_item(0), Some(("etc", &"/etc".to_string())));
}

#[test]
fn forward_then_back_restores_focus() {
    let mut app = App::new();
    let tab = Tab::from(1, &"/home/user/project".to_string()).unwrap();
    app.add_tab(tab, &project_listing(), &user_listing());
    app.current.set_selection(2); // "src"
    assert!(app.go_forward(true).is_ok());
    assert_eq!(app.tab.as_ref().unwrap().c_view, "/home/user/project/src");
    app.update_tab(&vec![file("main.rs"), file("lib.rs")], &project_listing());
    assert_eq!(app.current.focus(), 0);
    assert_eq!(app.parent.focus(), 2);
    app.current.set_selection(1);
    app.go_back();
    assert_eq!(app.tab.as_ref().unwrap().c_view, "/home/user/project");
    app.update_tab(&project_listing(), &user_listing());
    assert_eq!(app.current.focus(), 2);
    assert_eq!(app.parent.focus(), 1);
    // and forward again remembers the child's focus
    assert!(app.go_forward(true).is_ok());
    app.update_tab(&vec![file("main.rs"), file("lib.rs")], &project_listing());
    assert_eq!(app.current.focus(), 1);
}

#[test]
fn forward_into_a_file_is_refused() {
    let mut app = App::new();
    let tab = Tab::from(1, &"/home/user/project".to_string()).unwrap();
    app.add_tab(tab, &project_listing(), &user_listing());
    app.current.set_selection(3);
    let err = app.go_forward(false).unwrap_err();
    match err.get_kind() {
        ErrorKind::NotADirectory { dirname } => assert_eq!(dirname, "/home/user/project/README"),
        _ => panic!("wrong error"),
    }
    assert_eq!(app.tab.as_ref().unwrap().c_view, "/home/user/project");
}

#[test]
fn forward_from_an_empty_directory_is_refused() {
    let mut app = App::new();
    let tab = Tab::from(1, &"/tmp/empty".to_string()).unwrap();
    app.add_tab(tab, &vec![], &vec![]);
    let err = app.go_forward(true).unwrap_err();
    assert!(matches!(err.get_kind(), ErrorKind::NothingSelected));
}

#[test]
fn start_path_rules() {
    let cwd = "/home/user".to_string();
    assert_eq!(start_path(&".".to_string(), &cwd), Some("/home/user".to_string()));
    assert_eq!(start_path(&"./".to_string(), &cwd), Some("/home/user".to_string()));
    assert_eq!(start_path(&"..".to_string(), &cwd), Some("/home".to_string()));
    assert_eq!(start_path(&"../".to_string(), &"/".to_string()), None);
    assert_eq!(start_path(&"/etc".to_string(), &cwd), Some("/etc".to_string()));
}

#[test]
fn unreadable_directory_shows_an_empty_pane() {
    let mut app = App::new();
    let tab = Tab::from(1, &"/home/user/project".to_string()).unwrap();
    app.add_tab(tab, &project_listing(), &user_listing());
    app.current.set_selection(2);
    assert!(app.go_forward(true).is_ok());
    app.update_tab(&vec![], &project_listing());
    assert_eq!(app.current.len(), 0);
    assert_eq!(app.current.focus(), 0);
    assert_eq!(app.parent.len(), 4);
}

#[test]
fn join_keeps_a_single_separator() {
    let mut app = App::new();
    let tab = Tab::from(1, &"/home/".to_string()).unwrap();
    app.add_tab(tab, &vec![dir("user")], &vec![]);
    assert_eq!(app.current.get_item(0), Some(("user", &"/home/user".to_string())));
}

#[test]
fn tab_refuses_to_enter_a_file() {
    let mut tab = Tab::from(1, &"/home/user".to_string()).unwrap();
    let err = tab.go_forward("/home/user/notes.txt".to_string(), false).unwrap_err();
    match err.get_kind() {
        ErrorKind::NotADirectory { dirname } => assert_eq!(dirname, "/home/user/notes.txt"),
        _ => panic!("wrong error"),
    }
    assert_eq!(tab.c_view, "/home/user");
    assert_eq!(tab.p_view, Some("/home".to_string()));
}

#[test]
fn app_back_at_root_keeps_the_tab() {
    let mut app = App::new();
    let tab = Tab::from(1, &"/".to_string()).unwrap();
    app.add_tab(tab, &vec![dir("home"), dir("etc")], &vec![]);
    app.current.set_selection(1);
    app.go_back();
    let tab = app.tab.as_ref().unwrap();
    assert_eq!(tab.c_view, "/");
    assert_eq!(tab.focused.get(&"/".to_string()), None);
}

#[test]
fn gg_through_the_regular_interpreter() {
    let mut app = App::new();
    let tab = Tab::from(1, &"/home/user/project".to_string()).unwrap();
    app.add_tab(tab, &project_listing(), &user_listing());
    app.current.set_selection(3);
    app.current.on_event_regular(Event::Char('5'));
    app.current.on_event_regular(Event::Char('g'));
    app.current.on_event_regular(Event::Char('g'));
    assert_eq!(app.current.focus(), 0);
    // the count was dropped with the buffers
    app.current.on_event_regular(Event::Char('G'));
    assert_eq!(app.current.focus(), 3);
}
