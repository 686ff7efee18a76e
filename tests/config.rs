use marcos::config::keys::{KeyMaps, KeySequence, Modifier};
use marcos::config::options::{ConfigOptions, Size, StatusPosition};
use marcos::event::Event;
use marcos::fs::metadata::{Entry, Metadata, Permissions};

#[test]
fn default_key_maps() {
    let k = KeyMaps::default();
    assert_eq!(k.quit, "q");
    assert_eq!(k.select_up, "k");
    assert_eq!(k.select_down, "j");
    assert_eq!(k.back, "h");
    assert_eq!(k.forward, "l");
    assert_eq!(k.show_hidden, "za");
    assert_eq!(k.delete_with_cfm, "dd");
    assert_eq!(k.refresh, "C-r");
}

#[test]
fn default_options() {
    let o = ConfigOptions::default();
    assert_eq!(o.size, Size::Bytes);
    assert!(!o.show_hidden);
    assert!(o.confirm);
    assert_eq!(o.status_position, StatusPosition::Bottom);
    assert_eq!(o.preview_max_size, 102400);
    assert_eq!(o.delay_idle, 2000);
}

#[test]
fn key_sequences_emit_events() {
    let s = KeySequence::new(true, None, Modifier::NoMod, vec!['d', 'd'], ());
    assert_eq!(s.emit_sequence(), (true, vec![Event::Char('d'), Event::Char('d')]));
    let s = KeySequence::new(false, None, Modifier::Shift, vec!['p', 'q'], ());
    assert_eq!(s.emit_sequence(), (false, vec![Event::Char('P')]));
    let s = KeySequence::new(false, Some(3), Modifier::Ctrl, vec!['r'], ());
    assert_eq!(s.emit_sequence(), (false, vec![Event::CtrlChar('r')]));
    let s = KeySequence::new(false, None, Modifier::Alt, vec![], ());
    assert_eq!(s.emit_sequence(), (false, vec![]));
    let s = KeySequence::new(false, None, Modifier::AltCtrl, vec!['x'], ());
    assert_eq!(s.emit_sequence(), (false, vec![]));
}

#[test]
fn permission_flags() {
    assert_eq!(Permissions::from(0o755).to_string(), "rwxr-xr-x");
    assert_eq!(Permissions::from(0o640).to_string(), "rw-r-----");
    assert_eq!(Permissions::from(0).to_string(), "---------");
    let p = Permissions::from(0o100644);
    assert!(p.user_read && p.user_write && !p.user_execute);
}

#[test]
fn entry_permission_string() {
    let e = Entry::from("/tmp/x".to_string());
    assert_eq!(e.get_path(), "/tmp/x");
    let meta = Metadata { is_dir: true, mode: 0o40755, user: "alice".to_string(), group: "staff".to_string() };
    assert_eq!(e.permission_string(&meta), "drwxr-xr-x alice:staff");
    let meta = Metadata { is_dir: false, mode: 0o600, user: "bob".to_string(), group: "bob".to_string() };
    assert_eq!(e.permission_string(&meta), "-rw------- bob:bob");
}
