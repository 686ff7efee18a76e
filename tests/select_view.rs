use marcos::event::{Callback, Event, EventResult, Key, MouseButton, MouseEvent};
use marcos::ui::geometry::{HAlign, Vec2};
use marcos::ui::multi_select::{get_number, MultiSelectView};

fn list_of(n: usize) -> MultiSelectView<usize> {
    let mut v = MultiSelectView::new();
    for i in 0..n {
        v.add_item(format!("item{}", i), i);
    }
    v
}

fn send(v: &mut MultiSelectView<usize>, evs: &[Event]) -> EventResult<usize> {
    let mut last = EventResult::Ignored;
    for e in evs {
        last = v.on_event(*e);
    }
    last
}

#[test]
fn select_up_saturates_at_zero() {
    let mut v = list_of(10);
    v.set_selection(5);
    v.select_up(3);
    assert_eq!(v.focus(), 2);
    v.select_up(7);
    assert_eq!(v.focus(), 0);
}

#[test]
fn select_down_saturates_at_last() {
    let mut v = list_of(10);
    v.set_selection(5);
    v.select_down(3);
    assert_eq!(v.focus(), 8);
    v.select_down(100);
    assert_eq!(v.focus(), 9);
    v.select_down(usize::MAX);
    assert_eq!(v.focus(), 9);
}

#[test]
fn moves_keep_focus_in_range() {
    let mut v = list_of(7);
    let steps: [(u8, usize); 8] = [(0, 3), (1, 50), (2, 100), (0, 1), (2, 2), (1, 4), (0, 9), (2, 6)];
    for (kind, n) in steps.iter() {
        match kind {
            0 => {
                v.select_down(*n);
            }
            1 => {
                v.select_up(*n);
            }
            _ => {
                v.set_selection(*n);
            }
        }
        assert!(v.focus() < v.len());
    }
}

#[test]
fn set_selection_clamps() {
    let mut v = list_of(4);
    v.set_selection(17);
    assert_eq!(v.focus(), 3);
    let mut empty: MultiSelectView<usize> = MultiSelectView::new();
    empty.set_selection(5);
    assert_eq!(empty.focus(), 0);
    assert!(empty.selection().is_none());
    assert!(empty.selected_id().is_none());
}

#[test]
fn gg_goes_to_first_from_anywhere() {
    for start in [0usize, 3, 9] {
        let mut v = list_of(10).on_select();
        v.set_selection(start);
        let r = send(&mut v, &[Event::Char('g'), Event::Char('g')]);
        assert_eq!(v.focus(), 0);
        assert!(matches!(r, EventResult::Consumed(Some(Callback::Select(0)))));
    }
}

#[test]
fn gg_clears_pending_count() {
    let mut v = list_of(10);
    v.set_selection(6);
    send(&mut v, &[Event::Char('4'), Event::Char('g'), Event::Char('g')]);
    assert_eq!(v.focus(), 0);
    // the count was dropped: a bare G now goes to the last row
    send(&mut v, &[Event::Char('G')]);
    assert_eq!(v.focus(), 9);
}

#[test]
fn count_then_big_g_goes_to_row() {
    let mut v = list_of(10);
    let r = v.on_event(Event::Char('3'));
    assert!(matches!(r, EventResult::Ignored));
    let r = v.on_event(Event::Char('G'));
    assert!(matches!(r, EventResult::Consumed(None)));
    assert_eq!(v.focus(), 2);
}

#[test]
fn bare_big_g_goes_to_last() {
    let mut v = list_of(10);
    send(&mut v, &[Event::Char('G')]);
    assert_eq!(v.focus(), 9);
}

#[test]
fn two_digit_count_and_overlong_count() {
    let mut v = list_of(30);
    send(&mut v, &[Event::Char('1'), Event::Char('2'), Event::Char('G')]);
    assert_eq!(v.focus(), 11);
    send(&mut v, &[Event::Char('9'), Event::Char('9'), Event::Char('G')]);
    assert_eq!(v.focus(), 29);
}

#[test]
fn escape_drops_the_count() {
    let mut v = list_of(10);
    let r = send(&mut v, &[Event::Char('3'), Event::Key(Key::Esc)]);
    assert!(matches!(r, EventResult::Consumed(None)));
    send(&mut v, &[Event::Char('G')]);
    assert_eq!(v.focus(), 9);
}

#[test]
fn arrows_pages_home_end() {
    let mut v = list_of(25).on_select();
    assert!(matches!(v.on_event(Event::Key(Key::Up)), EventResult::Ignored));
    assert!(matches!(
        v.on_event(Event::Key(Key::Down)),
        EventResult::Consumed(Some(Callback::Select(1)))
    ));
    v.on_event(Event::Char('j'));
    assert_eq!(v.focus(), 2);
    v.on_event(Event::Char('k'));
    assert_eq!(v.focus(), 1);
    v.on_event(Event::Key(Key::PageDown));
    assert_eq!(v.focus(), 11);
    v.on_event(Event::Key(Key::PageUp));
    assert_eq!(v.focus(), 1);
    v.on_event(Event::Key(Key::End));
    assert_eq!(v.focus(), 24);
    assert!(matches!(v.on_event(Event::Key(Key::Down)), EventResult::Ignored));
    v.on_event(Event::Key(Key::Home));
    assert_eq!(v.focus(), 0);
    assert!(matches!(v.on_event(Event::Char('z')), EventResult::Ignored));
}

#[test]
fn enter_submits_only_with_handler() {
    let mut v = list_of(5);
    v.set_selection(3);
    assert!(matches!(v.on_event(Event::Key(Key::Enter)), EventResult::Ignored));
    v.set_on_submit();
    assert!(matches!(
        v.on_event(Event::Key(Key::Enter)),
        EventResult::Consumed(Some(Callback::Submit(3)))
    ));
}

#[test]
fn select_callbacks_need_a_handler() {
    let mut v = list_of(5);
    assert!(matches!(v.set_selection(2), Callback::Dummy));
    v.set_on_select();
    assert!(matches!(v.set_selection(2), Callback::Select(2)));
    assert!(matches!(v.select_down(1), Callback::Select(3)));
    assert!(matches!(v.select_up(3), Callback::Select(0)));
}

#[test]
fn mouse_press_and_release() {
    let mut v = list_of(5).on_submit();
    v.layout(Vec2::new(20, 5));
    let press = Event::Mouse {
        offset: Vec2::new(2, 3),
        position: Vec2::new(4, 6),
        event: MouseEvent::Press(MouseButton::Left),
    };
    assert!(matches!(v.on_event(press), EventResult::Consumed(None)));
    assert_eq!(v.focus(), 3);
    let outside = Event::Mouse {
        offset: Vec2::new(2, 3),
        position: Vec2::new(1, 6),
        event: MouseEvent::Press(MouseButton::Left),
    };
    assert!(matches!(v.on_event(outside), EventResult::Ignored));
    let release = Event::Mouse {
        offset: Vec2::new(2, 3),
        position: Vec2::new(4, 6),
        event: MouseEvent::Release(MouseButton::Left),
    };
    assert!(matches!(
        v.on_event(release),
        EventResult::Consumed(Some(Callback::Submit(3)))
    ));
}

#[test]
fn popup_mode_only_opens_menu() {
    let mut v = list_of(5).popup();
    assert!(matches!(
        v.on_event(Event::Key(Key::Enter)),
        EventResult::Consumed(Some(Callback::Popup))
    ));
    assert!(matches!(v.on_event(Event::Char('G')), EventResult::Ignored));
    assert_eq!(v.focus(), 0);
}

#[test]
fn remove_and_insert_items() {
    let mut v = list_of(4);
    v.set_selection(3);
    v.remove_item(1);
    assert_eq!(v.len(), 3);
    assert_eq!(v.focus(), 2);
    assert_eq!(v.get_item(1), Some(("item2", &2)));
    v.insert_item(0, "front".to_string(), 99);
    assert_eq!(v.get_item(0), Some(("front", &99)));
    assert_eq!(v.focus(), 2);
    v.clear();
    assert!(v.is_empty());
    assert_eq!(v.focus(), 0);
}

#[test]
fn add_all_keeps_order_and_get_item_mut_edits() {
    let mut v: MultiSelectView<usize> = MultiSelectView::new();
    v.add_all(vec![("a".to_string(), 1), ("b".to_string(), 2)]);
    assert_eq!(v.get_item(0), Some(("a", &1)));
    assert_eq!(v.get_item(1), Some(("b", &2)));
    assert_eq!(v.get_item(2), None);
    if let Some((label, value)) = v.get_item_mut(1) {
        label.push('!');
        *value = 20;
    }
    assert_eq!(v.get_item(1), Some(("b!", &20)));
    assert!(v.get_item_mut(5).is_none());
}

#[test]
fn string_lists_use_labels_as_values() {
    let mut v: MultiSelectView<String> = MultiSelectView::new()
        .with_all_str(vec!["x".to_string(), "y".to_string()])
        .h_align(HAlign::Center);
    v.insert_item_str(1, "m".to_string());
    assert_eq!(v.get_item(1), Some(("m", &"m".to_string())));
    assert_eq!(v.len(), 3);
    assert_eq!(v.get_align().h, HAlign::Center);
    let v = v.item_str("z".to_string()).disabled();
    assert!(!v.is_enabled());
    assert!(!v.take_focus());
}

#[test]
fn get_number_reads_decimal() {
    assert_eq!(get_number(&vec![]), 0);
    assert_eq!(get_number(&vec![1, 2, 3]), 123);
    assert_eq!(get_number(&vec![0, 7]), 7);
    assert_eq!(get_number(&vec![9; 30]), usize::MAX);
}

#[test]
fn out_of_range_insert_and_remove_are_clamped() {
    let mut v = list_of(3);
    v.set_selection(2);
    v.insert_item(10, "end".to_string(), 42);
    assert_eq!(v.len(), 4);
    assert_eq!(v.get_item(3), Some(("end", &42)));
    let cb = v.remove_item(7);
    assert!(matches!(cb, Callback::Dummy));
    assert_eq!(v.len(), 4);
    assert_eq!(v.focus(), 2);
    let mut s: MultiSelectView<String> = MultiSelectView::new();
    s.insert_item_str(5, "only".to_string());
    assert_eq!(s.get_item(0), Some(("only", &"only".to_string())));
}
