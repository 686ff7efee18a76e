//! A list of labelled values with one focused row, driven by decoded input
//! events through a small modal interpreter (`gg`, `G`, `<count>G`).

use vstd::prelude::*;

use crate::event::{Callback, Event, EventResult, Key, MouseButton, MouseEvent};
use crate::ui::geometry::{Align, HAlign, VAlign, Vec2};

verus! {

/// One row: its label and the value the caller attached to it.
pub struct Item<T> {
    pub label: String,
    pub value: T,
}

impl<T> Item<T> {
    pub fn new(label: String, value: T) -> (r: Self)
        ensures
            r.label == label,
            r.value == value,
    {
        Item { label, value }
    }
}

/// What a list holds and where it stands, as the contracts see it.
pub struct ListState<T> {
    /// Label and value of each row, in display order.
    pub items: Seq<(Seq<char>, T)>,
    pub focus: nat,
    pub enabled: bool,
    /// Compact mode: one line, with a pop-up menu on demand.
    pub popup: bool,
    /// Whether the host registered a selection handler.
    pub on_select: bool,
    /// Whether the host registered a submit handler.
    pub on_submit: bool,
    pub align: Align,
    /// The size the list was last laid out at.
    pub last_size: Vec2,
    /// Pending prefix keys of a multi-key command.
    pub keys: Seq<char>,
    /// Pending digits of a count, most significant first.
    pub digits: Seq<usize>,
}

/// Which kind of answer an event gets.
pub enum Outcome {
    Ignored,
    /// Consumed, with no command.
    Nothing,
    /// Consumed, with the selection command of the new focus.
    Select,
    /// Consumed, with the submit command of the focus.
    Submit,
    /// Consumed, asking for the pop-up menu.
    Popup,
}

/// `i` brought into `[0, len - 1]`, or 0 for an empty list.
pub open spec fn clamp_index(i: int, len: nat) -> nat {
    if len == 0 || i <= 0 {
        0
    } else if i >= len {
        (len - 1) as nat
    } else {
        i as nat
    }
}

/// Where an insertion at `index` lands: `index`, or the end when past it.
pub open spec fn insert_position(index: int, len: nat) -> int {
    if index > len {
        len as int
    } else {
        index
    }
}

/// Focus after moving up `n` rows from `f`: `max(0, f - n)`.
pub open spec fn focus_up_from(f: nat, n: nat) -> nat {
    if f >= n {
        (f - n) as nat
    } else {
        0
    }
}

/// Focus after moving down `n` rows from `f` in a list of `len` rows:
/// `min(len - 1, f + n)`, and 0 for an empty list.
pub open spec fn focus_down_from(f: nat, n: nat, len: nat) -> nat {
    if len == 0 {
        0
    } else if f + n >= len {
        (len - 1) as nat
    } else {
        f + n
    }
}

/// The number that a sequence of decimal digits spells, most significant first.
pub open spec fn decimal(digits: Seq<usize>) -> nat
    decreases digits.len(),
{
    if digits.len() == 0 {
        0
    } else {
        (decimal(digits.drop_last()) * 10 + digits.last()) as nat
    }
}

/// The count that pending digits give: their number, saturated at `usize::MAX`.
pub open spec fn count_of(digits: Seq<usize>) -> nat {
    if decimal(digits) >= usize::MAX {
        usize::MAX as nat
    } else {
        decimal(digits)
    }
}

pub open spec fn is_digit(c: char) -> bool {
    0x30 <= (c as u32) <= 0x39
}

pub open spec fn digit_of(c: char) -> usize {
    ((c as u32) - 0x30) as usize
}

/// Whether `position` falls in the `size` box that starts at `offset`.
pub open spec fn inside(offset: Vec2, position: Vec2, size: Vec2) -> bool {
    &&& position.x >= offset.x
    &&& position.y >= offset.y
    &&& position.x - offset.x < size.x
    &&& position.y - offset.y < size.y
}

/// The character an event types, if it types one.
pub open spec fn typed(ev: Event) -> Option<char> {
    match ev {
        Event::Char(c) => Some(c),
        _ => None,
    }
}

impl<T> ListState<T> {
    pub open spec fn len(self) -> nat {
        self.items.len()
    }

    /// The focus is a row of the list, or 0 when it is empty; at most the
    /// first key of `gg` waits for its second.
    pub open spec fn wf(self) -> bool {
        &&& (self.focus < self.len() || self.focus == 0)
        &&& (self.keys == Seq::<char>::empty() || self.keys == seq!['g'])
    }

    pub open spec fn has_selection(self) -> bool {
        self.focus < self.len()
    }

    pub open spec fn focused_value(self) -> T {
        self.items[self.focus as int].1
    }

    pub open spec fn with_focus(self, f: nat) -> ListState<T> {
        ListState { focus: f, ..self }
    }

    pub open spec fn with_keys(self, keys: Seq<char>) -> ListState<T> {
        ListState { keys: keys, ..self }
    }

    /// Both pending buffers emptied.
    pub open spec fn cleared(self) -> ListState<T> {
        ListState { keys: Seq::empty(), digits: Seq::empty(), ..self }
    }

    /// State and answer for a key handled on its own, after the buffers are settled.
    pub open spec fn single_key(self, ev: Event) -> (ListState<T>, Outcome) {
        let len = self.len();
        match ev {
            Event::Key(Key::Esc) => (self, Outcome::Nothing),
            Event::Key(Key::Up) | Event::Char('k') => {
                if self.focus > 0 {
                    (self.with_focus((self.focus - 1) as nat), Outcome::Select)
                } else {
                    (self, Outcome::Ignored)
                }
            },
            Event::Key(Key::Down) | Event::Char('j') => {
                if self.focus + 1 < len {
                    (self.with_focus(self.focus + 1), Outcome::Select)
                } else {
                    (self, Outcome::Ignored)
                }
            },
            Event::Key(Key::PageUp) => (
                self.with_focus(focus_up_from(self.focus, 10)),
                Outcome::Select,
            ),
            Event::Key(Key::PageDown) => (
                self.with_focus(focus_down_from(self.focus, 10, len)),
                Outcome::Select,
            ),
            Event::Key(Key::Home) => (self.with_focus(0), Outcome::Select),
            Event::Key(Key::End) | Event::Char('G') => (
                self.with_focus(clamp_index(len - 1, len)),
                Outcome::Select,
            ),
            Event::Key(Key::Enter) => {
                if self.on_submit {
                    (self, Outcome::Submit)
                } else {
                    (self, Outcome::Ignored)
                }
            },
            Event::Mouse { offset, position, event } => match event {
                MouseEvent::Press(_) => {
                    if inside(offset, position, self.last_size) && position.y - offset.y < len {
                        (self.with_focus((position.y - offset.y) as nat), Outcome::Select)
                    } else {
                        (self, Outcome::Ignored)
                    }
                },
                MouseEvent::Release(MouseButton::Left) => {
                    if self.on_submit && inside(offset, position, self.last_size) && position.y
                        - offset.y == self.focus {
                        (self, Outcome::Submit)
                    } else {
                        (self, Outcome::Ignored)
                    }
                },
                _ => (self, Outcome::Ignored),
            },
            _ => (self, Outcome::Ignored),
        }
    }

    /// State and answer for an event in regular (non-compact) mode.
    ///
    /// A digit only extends the pending count. `g` and `G` extend the pending
    /// keys; `gg` goes to the first row and `<count>G` to row `count`. A key
    /// that leaves no open prefix empties both buffers and is then handled on
    /// its own (so a bare `G` goes to the last row).
    pub open spec fn regular_step(self, ev: Event) -> (ListState<T>, Outcome) {
        let len = self.len();
        if typed(ev) is Some && is_digit(typed(ev).unwrap()) {
            (
                ListState { digits: self.digits.push(digit_of(typed(ev).unwrap())), ..self },
                Outcome::Ignored,
            )
        } else {
            let extended = ev == Event::Char('g') || ev == Event::Char('G');
            let keys = if extended {
                self.keys.push(typed(ev).unwrap())
            } else {
                self.keys
            };
            if keys == seq!['g', 'g'] {
                (self.cleared().with_focus(0), Outcome::Select)
            } else if keys == seq!['G'] && count_of(self.digits) > 0 {
                (
                    self.cleared().with_focus(clamp_index(count_of(self.digits) - 1, len)),
                    Outcome::Select,
                )
            } else if extended && keys == seq!['g'] {
                self.with_keys(keys).single_key(ev)
            } else {
                self.cleared().single_key(ev)
            }
        }
    }

    /// State and answer for an event in compact mode: only opening the menu.
    pub open spec fn popup_step(self, ev: Event) -> (ListState<T>, Outcome) {
        match ev {
            Event::Key(Key::Enter) => (self, Outcome::Popup),
            Event::Mouse { offset, position, event: MouseEvent::Release(MouseButton::Left) } => {
                if inside(offset, position, self.last_size) {
                    (self, Outcome::Popup)
                } else {
                    (self, Outcome::Ignored)
                }
            },
            _ => (self, Outcome::Ignored),
        }
    }

    /// State and answer for any event.
    pub open spec fn step(self, ev: Event) -> (ListState<T>, Outcome) {
        if self.popup {
            self.popup_step(ev)
        } else {
            self.regular_step(ev)
        }
    }
}

impl<T: Clone> ListState<T> {
    /// `r` is the selection command of this state: a copy of the focused
    /// value when a handler is registered and the list is not empty.
    pub open spec fn select_cb_ok(self, r: Option<Callback<T>>) -> bool {
        if self.on_select && self.has_selection() {
            r matches Some(Callback::Select(v)) && cloned(self.focused_value(), v)
        } else {
            r is None
        }
    }

    /// As `select_cb_ok`, with `Dummy` standing for no command.
    pub open spec fn callback_ok(self, r: Callback<T>) -> bool {
        if self.on_select && self.has_selection() {
            r matches Callback::Select(v) && cloned(self.focused_value(), v)
        } else {
            r is Dummy
        }
    }

    /// `r` is the submit command of this state.
    pub open spec fn submit_cb_ok(self, r: Option<Callback<T>>) -> bool {
        if self.has_selection() {
            r matches Some(Callback::Submit(v)) && cloned(self.focused_value(), v)
        } else {
            r is None
        }
    }

    /// `r` is the answer that `outcome` names, in the state after the event.
    pub open spec fn answer_ok(self, outcome: Outcome, r: EventResult<T>) -> bool {
        match outcome {
            Outcome::Ignored => r is Ignored,
            Outcome::Nothing => r matches EventResult::Consumed(None),
            Outcome::Select => r matches EventResult::Consumed(c) && self.select_cb_ok(c),
            Outcome::Submit => r matches EventResult::Consumed(c) && self.submit_cb_ok(c),
            Outcome::Popup => r matches EventResult::Consumed(Some(Callback::Popup)),
        }
    }
}

/// Whether an event types a decimal digit.
fn is_numeric(event: &Event) -> (r: bool)
    ensures
        r == (typed(*event) is Some && is_digit(typed(*event).unwrap())),
{
    match event {
        Event::Char(c) => (*c as u32) >= 0x30 && (*c as u32) <= 0x39,
        _ => false,
    }
}

/// Whether an event can start or extend a multi-key command (`g` or `G`).
fn should_intercept(event: &Event) -> (r: bool)
    ensures
        r == (*event == Event::Char('g') || *event == Event::Char('G')),
{
    match event {
        Event::Char('g') | Event::Char('G') => true,
        _ => false,
    }
}

/// The count that `seq` spells as decimal digits, most significant first,
/// saturated at `usize::MAX`; 0 for no digits.
pub fn get_number(seq: &Vec<usize>) -> (r: usize)
    ensures
        r == count_of(seq@),
{
    let mut ans: usize = 0;
    let mut i: usize = 0;
    while i < seq.len()
        invariant
            i <= seq@.len(),
            ans == count_of(seq@.take(i as int)),
        decreases seq@.len() - i,
    {
        proof {
            let next = seq@.take(i + 1);
            assert(next.drop_last() =~= seq@.take(i as int));
            assert(next.last() == seq@[i as int]);
        }
        let d = seq[i];
        if ans > usize::MAX / 10 {
            ans = usize::MAX;
        } else {
            ans = ans * 10;
        }
        if ans > usize::MAX - d {
            ans = usize::MAX;
        } else {
            ans = ans + d;
        }
        i = i + 1;
    }
    assert(seq@.take(i as int) =~= seq@);
    ans
}

/// A list of labelled values with one focused row.
///
/// Handlers for selection and submission live with the host: the list only
/// records that they exist, and hands back a `Callback` naming the value to
/// run them on.
pub struct MultiSelectView<T> {
    items: Vec<Item<T>>,
    enabled: bool,
    focus: usize,
    on_submit: bool,
    on_select: bool,
    align: Align,
    popup: bool,
    last_size: Vec2,
    input_buffer: Vec<char>,
    input_num_buffer: Vec<usize>,
}

pub open spec fn item_view<T>(it: Item<T>) -> (Seq<char>, T) {
    (it.label@, it.value)
}

impl<T> View for MultiSelectView<T> {
    type V = ListState<T>;

    closed spec fn view(&self) -> ListState<T> {
        ListState {
            items: self.items@.map_values(|it: Item<T>| item_view(it)),
            focus: self.focus as nat,
            enabled: self.enabled,
            popup: self.popup,
            on_select: self.on_select,
            on_submit: self.on_submit,
            align: self.align,
            last_size: self.last_size,
            keys: self.input_buffer@,
            digits: self.input_num_buffer@,
        }
    }
}

impl<T> ListState<T> {
    /// A new list: empty, enabled, regular mode, no handlers, nothing pending.
    pub open spec fn is_fresh(self) -> bool {
        &&& self.items.len() == 0
        &&& self.focus == 0
        &&& self.enabled
        &&& !self.popup
        &&& !self.on_select
        &&& !self.on_submit
        &&& self.align == Align { h: HAlign::Left, v: VAlign::Top }
        &&& self.last_size == Vec2 { x: 0, y: 0 }
        &&& self.keys.len() == 0
        &&& self.digits.len() == 0
    }
}

impl<T> MultiSelectView<T> {
    proof fn lemma_view(&self)
        ensures
            self@.items.len() == self.items@.len(),
            forall|i: int|
                0 <= i < self.items@.len() ==> #[trigger] self@.items[i] == item_view(
                    self.items@[i],
                ),
            self@.focus == self.focus,
            self@.keys == self.input_buffer@,
            self@.digits == self.input_num_buffer@,
            self@.on_select == self.on_select,
            self@.on_submit == self.on_submit,
            self@.popup == self.popup,
            self@.enabled == self.enabled,
            self@.last_size == self.last_size,
            self@.align == self.align,
    {
    }

    /// Creates a new empty list.
    pub fn new() -> (r: Self)
        ensures
            r@.is_fresh(),
            r@.wf(),
    {
        let r = MultiSelectView {
            items: Vec::new(),
            enabled: true,
            focus: 0,
            on_select: false,
            on_submit: false,
            align: Align::top_left(),
            popup: false,
            last_size: Vec2::zero(),
            input_buffer: Vec::new(),
            input_num_buffer: Vec::new(),
        };
        proof {
            r.lemma_view();
        }
        r
    }

    /// Turns `self` into a compact list. Chainable variant.
    pub fn popup(self) -> (r: Self)
        ensures
            r@ == (ListState { popup: true, ..self@ }),
    {
        let mut s = self;
        s.set_popup(true);
        s
    }

    /// Turns `self` into a compact list, or back.
    pub fn set_popup(&mut self, popup: bool)
        ensures
            final(self)@ == (ListState { popup: popup, ..old(self)@ }),
    {
        self.popup = popup;
        proof {
            assert(final(self)@.items =~= old(self)@.items);
        }
    }

    /// Returns `true` if this list is compact.
    pub fn is_popup(&self) -> (r: bool)
        ensures
            r == self@.popup,
    {
        self.popup
    }

    /// Disables this list: the host should not give it the focus.
    pub fn disable(&mut self)
        ensures
            final(self)@ == (ListState { enabled: false, ..old(self)@ }),
    {
        self.set_enabled(false);
    }

    /// Disables this list. Chainable variant.
    pub fn disabled(self) -> (r: Self)
        ensures
            r@ == (ListState { enabled: false, ..self@ }),
    {
        let mut s = self;
        s.disable();
        s
    }

    /// Re-enables this list.
    pub fn enable(&mut self)
        ensures
            final(self)@ == (ListState { enabled: true, ..old(self)@ }),
    {
        self.set_enabled(true);
    }

    /// Enables or disables this list.
    pub fn set_enabled(&mut self, enabled: bool)
        ensures
            final(self)@ == (ListState { enabled: enabled, ..old(self)@ }),
    {
        self.enabled = enabled;
        proof {
            assert(final(self)@.items =~= old(self)@.items);
        }
    }

    /// Returns `true` if this list is enabled.
    pub fn is_enabled(&self) -> (r: bool)
        ensures
            r == self@.enabled,
    {
        self.enabled
    }
}

impl<T> MultiSelectView<T> {
    /// Records that the host has a handler for selection changes: from now on
    /// the selection commands carry the focused value.
    pub fn set_on_select(&mut self)
        ensures
            final(self)@ == (ListState { on_select: true, ..old(self)@ }),
    {
        self.on_select = true;
    }

    /// Records a selection handler. Chainable variant.
    pub fn on_select(self) -> (r: Self)
        ensures
            r@ == (ListState { on_select: true, ..self@ }),
    {
        let mut s = self;
        s.set_on_select();
        s
    }

    /// Records that the host has a handler for `<Enter>`: from now on the
    /// list answers it with a submit command carrying the focused value.
    pub fn set_on_submit(&mut self)
        ensures
            final(self)@ == (ListState { on_submit: true, ..old(self)@ }),
    {
        self.on_submit = true;
    }

    /// Records a submit handler. Chainable variant.
    pub fn on_submit(self) -> (r: Self)
        ensures
            r@ == (ListState { on_submit: true, ..self@ }),
    {
        let mut s = self;
        s.set_on_submit();
        s
    }

    /// Sets the alignment for this list.
    pub fn align(self, align: Align) -> (r: Self)
        ensures
            r@ == (ListState { align: align, ..self@ }),
    {
        let mut s = self;
        s.align = align;
        s
    }

    /// Sets the vertical alignment for this list.
    pub fn v_align(self, v: VAlign) -> (r: Self)
        ensures
            r@ == (ListState { align: Align { v: v, ..self@.align }, ..self@ }),
    {
        let mut s = self;
        s.align.v = v;
        s
    }

    /// Sets the horizontal alignment for this list.
    pub fn h_align(self, h: HAlign) -> (r: Self)
        ensures
            r@ == (ListState { align: Align { h: h, ..self@.align }, ..self@ }),
    {
        let mut s = self;
        s.align.h = h;
        s
    }

    /// The alignment of this list.
    pub fn get_align(&self) -> (r: Align)
        ensures
            r == self@.align,
    {
        self.align
    }

    /// Returns the value of the focused row, or `None` if the list is empty.
    pub fn selection(&self) -> (r: Option<&T>)
        ensures
            r is Some == self@.has_selection(),
            r is Some ==> *r.unwrap() == self@.focused_value(),
    {
        proof {
            self.lemma_view();
        }
        if self.focus < self.items.len() {
            Some(&self.items[self.focus].value)
        } else {
            None
        }
    }

    /// Removes all rows; the focus goes back to 0.
    pub fn clear(&mut self)
        ensures
            final(self)@ == (ListState { items: Seq::empty(), focus: 0, ..old(self)@ }),
    {
        self.items.clear();
        self.focus = 0;
        proof {
            assert(final(self)@.items =~= Seq::<(Seq<char>, T)>::empty());
        }
    }

    /// Adds a row at the end, with the given label and value.
    pub fn add_item(&mut self, label: String, value: T)
        ensures
            final(self)@ == (ListState {
                items: old(self)@.items.push((label@, value)),
                ..old(self)@
            }),
    {
        let ghost old_items = self@.items;
        self.items.push(Item::new(label, value));
        proof {
            assert(final(self)@.items =~= old_items.push((label@, value)));
        }
    }

    /// Returns the label and value of row `i`, or `None` past the end.
    pub fn get_item(&self, i: usize) -> (r: Option<(&str, &T)>)
        ensures
            r is Some == (i < self@.len()),
            r is Some ==> r.unwrap().0@ == self@.items[i as int].0 && *r.unwrap().1
                == self@.items[i as int].1,
    {
        proof {
            self.lemma_view();
        }
        if i < self.items.len() {
            let item = &self.items[i];
            Some((item.label.as_str(), &item.value))
        } else {
            None
        }
    }

    /// Inserts a row at position `index`, shifting the rows after it down.
    /// The focus index stays as it is.
    /// An index past the end inserts at the end.
    pub fn insert_item(&mut self, index: usize, label: String, value: T)
        ensures
            final(self)@ == (ListState {
                items: old(self)@.items.insert(
                    insert_position(index as int, old(self)@.len()),
                    (label@, value),
                ),
                ..old(self)@
            }),
    {
        let ghost old_items = self@.items;
        proof {
            self.lemma_view();
        }
        let at = if index > self.items.len() {
            self.items.len()
        } else {
            index
        };
        self.items.insert(at, Item::new(label, value));
        proof {
            assert(final(self)@.items =~= old_items.insert(at as int, (label@, value)));
        }
    }

    /// Adds a row. Chainable variant of `add_item`.
    pub fn item(self, label: String, value: T) -> (r: Self)
        ensures
            r@ == (ListState { items: self@.items.push((label@, value)), ..self@ }),
    {
        let mut s = self;
        s.add_item(label, value);
        s
    }

    /// Adds all the given rows at the end, in order.
    pub fn add_all(&mut self, items: Vec<(String, T)>)
        ensures
            final(self)@ == (ListState {
                items: old(self)@.items + items@.map_values(|p: (String, T)| (p.0@, p.1)),
                ..old(self)@
            }),
    {
        let ghost start = self@;
        let ghost all = items@;
        let mut rest = items;
        let ghost mut k: int = 0;
        while rest.len() > 0
            invariant
                0 <= k <= all.len(),
                rest@ == all.skip(k),
                self@ == (ListState {
                    items: start.items + all.take(k).map_values(|p: (String, T)| (p.0@, p.1)),
                    ..start
                }),
            decreases rest@.len(),
        {
            let (label, value) = rest.remove(0);
            proof {
                assert(all.skip(k)[0] == all[k]);
            }
            self.add_item(label, value);
            proof {
                assert(all.take(k + 1) =~= all.take(k).push(all[k]));
                assert(all.take(k + 1).map_values(|p: (String, T)| (p.0@, p.1)) =~= all.take(
                    k,
                ).map_values(|p: (String, T)| (p.0@, p.1)).push((all[k].0@, all[k].1)));
                assert(rest@ =~= all.skip(k + 1));
                k = k + 1;
            }
        }
        proof {
            assert(all.take(k) =~= all);
        }
    }

    /// Adds all the given rows. Chainable variant.
    pub fn with_all(self, items: Vec<(String, T)>) -> (r: Self)
        ensures
            r@ == (ListState {
                items: self@.items + items@.map_values(|p: (String, T)| (p.0@, p.1)),
                ..self@
            }),
    {
        let mut s = self;
        s.add_all(items);
        s
    }

    /// Returns the index of the focused row, or `None` if the list is empty.
    pub fn selected_id(&self) -> (r: Option<usize>)
        ensures
            r is Some == (self@.len() > 0),
            r is Some ==> r.unwrap() == self@.focus,
    {
        proof {
            self.lemma_view();
        }
        if self.items.len() == 0 {
            None
        } else {
            Some(self.focus)
        }
    }

    /// The number of rows.
    pub fn len(&self) -> (r: usize)
        ensures
            r == self@.len(),
    {
        proof {
            self.lemma_view();
        }
        self.items.len()
    }

    /// Returns `true` if this list has no row.
    pub fn is_empty(&self) -> (r: bool)
        ensures
            r == (self@.len() == 0),
    {
        proof {
            self.lemma_view();
        }
        self.items.len() == 0
    }

    /// The focused row index (0 for an empty list).
    pub fn focus(&self) -> (r: usize)
        ensures
            r == self@.focus,
    {
        self.focus
    }

    /// Whether the host may give this list the keyboard focus.
    pub fn take_focus(&self) -> (r: bool)
        ensures
            r == (self@.enabled && self@.len() > 0),
    {
        proof {
            self.lemma_view();
        }
        self.enabled && self.items.len() > 0
    }

    /// Records the size the host laid this list out at (used for pointer hits).
    pub fn layout(&mut self, size: Vec2)
        ensures
            final(self)@ == (ListState { last_size: size, ..old(self)@ }),
    {
        self.last_size = size;
    }

    /// The size the list was last laid out at.
    pub fn last_size(&self) -> (r: Vec2)
        ensures
            r == self@.last_size,
    {
        self.last_size
    }

    /// Moves the focus up by `n` rows, stopping at the first.
    fn focus_up(&mut self, n: usize)
        ensures
            final(self)@ == old(self)@.with_focus(focus_up_from(old(self)@.focus, n as nat)),
    {
        if self.focus >= n {
            self.focus = self.focus - n;
        } else {
            self.focus = 0;
        }
    }

    /// Moves the focus down by `n` rows, stopping at the last.
    fn focus_down(&mut self, n: usize)
        ensures
            final(self)@ == old(self)@.with_focus(
                focus_down_from(old(self)@.focus, n as nat, old(self)@.len()),
            ),
    {
        proof {
            self.lemma_view();
        }
        let len = self.items.len();
        if len == 0 {
            self.focus = 0;
        } else if n >= len || self.focus >= len - n {
            self.focus = len - 1;
        } else {
            self.focus = self.focus + n;
        }
    }

    fn clear_pending(&mut self)
        ensures
            final(self)@ == old(self)@.cleared(),
    {
        self.input_buffer.clear();
        self.input_num_buffer.clear();
    }
}

impl<T: Clone> MultiSelectView<T> {
    /// The selection command for the current focus, if there is one to run.
    fn make_select_cb(&self) -> (r: Option<Callback<T>>)
        ensures
            self@.select_cb_ok(r),
    {
        proof {
            self.lemma_view();
        }
        if self.on_select && self.focus < self.items.len() {
            Some(Callback::Select(self.items[self.focus].value.clone()))
        } else {
            None
        }
    }

    /// The selection command for the current focus, or `Dummy`.
    fn select_cb(&self) -> (r: Callback<T>)
        ensures
            self@.callback_ok(r),
    {
        match self.make_select_cb() {
            Some(cb) => cb,
            None => Callback::Dummy,
        }
    }

    /// Moves the focus to row `i`, clamped into the list.
    ///
    /// Returns the selection command for the new focus, for the host to run.
    pub fn set_selection(&mut self, i: usize) -> (r: Callback<T>)
        requires
            old(self)@.wf(),
        ensures
            final(self)@ == old(self)@.with_focus(clamp_index(i as int, old(self)@.len())),
            final(self)@.wf(),
            final(self)@.callback_ok(r),
    {
        proof {
            self.lemma_view();
        }
        let len = self.items.len();
        if len == 0 {
            self.focus = 0;
        } else if i >= len {
            self.focus = len - 1;
        } else {
            self.focus = i;
        }
        self.select_cb()
    }

    /// Moves the focus to row `i`, clamped. Chainable variant; the
    /// selection command is dropped.
    pub fn selected(self, i: usize) -> (r: Self)
        requires
            self@.wf(),
        ensures
            r@ == self@.with_focus(clamp_index(i as int, self@.len())),
            r@.wf(),
    {
        let mut s = self;
        let _ = s.set_selection(i);
        s
    }

    /// Moves the focus up by `n` rows, stopping at the first row.
    ///
    /// Returns the selection command for the new focus.
    pub fn select_up(&mut self, n: usize) -> (r: Callback<T>)
        requires
            old(self)@.wf(),
        ensures
            final(self)@ == old(self)@.with_focus(focus_up_from(old(self)@.focus, n as nat)),
            final(self)@.wf(),
            final(self)@.callback_ok(r),
    {
        self.focus_up(n);
        self.select_cb()
    }

    /// Moves the focus down by `n` rows, stopping at the last row.
    ///
    /// Returns the selection command for the new focus.
    pub fn select_down(&mut self, n: usize) -> (r: Callback<T>)
        requires
            old(self)@.wf(),
        ensures
            final(self)@ == old(self)@.with_focus(
                focus_down_from(old(self)@.focus, n as nat, old(self)@.len()),
            ),
            final(self)@.wf(),
            final(self)@.callback_ok(r),
    {
        self.focus_down(n);
        self.select_cb()
    }

    /// Removes row `id`. A focus at or below it moves up one row (not past 0).
    ///
    /// Returns the selection command for the new focus.
    /// An index past the end leaves the list as it is.
    pub fn remove_item(&mut self, id: usize) -> (r: Callback<T>)
        requires
            old(self)@.wf(),
        ensures
            id >= old(self)@.len() ==> final(self)@ == old(self)@,
            id < old(self)@.len() ==> final(self)@ == (ListState {
                items: old(self)@.items.remove(id as int),
                focus: if old(self)@.focus >= id && old(self)@.focus > 0 {
                    (old(self)@.focus - 1) as nat
                } else {
                    old(self)@.focus
                },
                ..old(self)@
            }),
            final(self)@.wf(),
            final(self)@.callback_ok(r),
    {
        let ghost old_items = self@.items;
        proof {
            self.lemma_view();
        }
        if id >= self.items.len() {
            return self.select_cb();
        }
        self.items.remove(id);
        if self.focus >= id && self.focus > 0 {
            self.focus = self.focus - 1;
        }
        proof {
            assert(self@.items =~= old_items.remove(id as int));
        }
        self.select_cb()
    }

    /// Answers a submission: the submit command with the focused value.
    fn submit(&self) -> (r: EventResult<T>)
        ensures
            self@.answer_ok(Outcome::Submit, r),
    {
        proof {
            self.lemma_view();
        }
        if self.focus < self.items.len() {
            EventResult::Consumed(Some(Callback::Submit(self.items[self.focus].value.clone())))
        } else {
            EventResult::Consumed(None)
        }
    }

    /// Handles an event on its own, once the pending buffers are settled.
    fn on_single_key(&mut self, event: Event) -> (r: EventResult<T>)
        requires
            old(self)@.wf(),
        ensures
            final(self)@ == old(self)@.single_key(event).0,
            final(self)@.wf(),
            final(self)@.answer_ok(old(self)@.single_key(event).1, r),
    {
        proof {
            self.lemma_view();
        }
        let len = self.items.len();
        match event {
            Event::Key(Key::Esc) => EventResult::Consumed(None),
            Event::Key(Key::Up) | Event::Char('k') => {
                if self.focus > 0 {
                    self.focus_up(1);
                    EventResult::Consumed(self.make_select_cb())
                } else {
                    EventResult::Ignored
                }
            },
            Event::Key(Key::Down) | Event::Char('j') => {
                if len > 0 && self.focus < len - 1 {
                    self.focus_down(1);
                    EventResult::Consumed(self.make_select_cb())
                } else {
                    EventResult::Ignored
                }
            },
            Event::Key(Key::PageUp) => {
                self.focus_up(10);
                EventResult::Consumed(self.make_select_cb())
            },
            Event::Key(Key::PageDown) => {
                self.focus_down(10);
                EventResult::Consumed(self.make_select_cb())
            },
            Event::Key(Key::Home) => {
                self.focus = 0;
                EventResult::Consumed(self.make_select_cb())
            },
            Event::Key(Key::End) | Event::Char('G') => {
                self.focus = if len == 0 {
                    0
                } else {
                    len - 1
                };
                EventResult::Consumed(self.make_select_cb())
            },
            Event::Key(Key::Enter) => {
                if self.on_submit {
                    self.submit()
                } else {
                    EventResult::Ignored
                }
            },
            Event::Mouse { offset, position, event } => match event {
                MouseEvent::Press(_) => {
                    if position.x >= offset.x && position.y >= offset.y && position.x - offset.x
                        < self.last_size.x && position.y - offset.y < self.last_size.y
                        && position.y - offset.y < len {
                        self.focus = position.y - offset.y;
                        EventResult::Consumed(self.make_select_cb())
                    } else {
                        EventResult::Ignored
                    }
                },
                MouseEvent::Release(MouseButton::Left) => {
                    if self.on_submit && position.x >= offset.x && position.y >= offset.y
                        && position.x - offset.x < self.last_size.x && position.y - offset.y
                        < self.last_size.y && position.y - offset.y == self.focus {
                        self.submit()
                    } else {
                        EventResult::Ignored
                    }
                },
                _ => EventResult::Ignored,
            },
            _ => EventResult::Ignored,
        }
    }

    /// The modal interpreter of regular mode (see `ListState::regular_step`).
    pub fn on_event_regular(&mut self, event: Event) -> (r: EventResult<T>)
        requires
            old(self)@.wf(),
        ensures
            final(self)@ == old(self)@.regular_step(event).0,
            final(self)@.wf(),
            final(self)@.answer_ok(old(self)@.regular_step(event).1, r),
    {
        proof {
            self.lemma_view();
        }
        let ghost s0 = self@;
        if is_numeric(&event) {
            if let Event::Char(c) = event {
                self.input_num_buffer.push(((c as u32) - 0x30) as usize);
            }
            proof {
                assert(self@.items =~= s0.items);
            }
            return EventResult::Ignored;
        }
        let extended = should_intercept(&event);
        if let Event::Char(c) = event {
            if extended {
                self.input_buffer.push(c);
            }
        }
        let ghost keys = self.input_buffer@;
        assert(keys == (if extended { s0.keys.push(typed(event).unwrap()) } else { s0.keys }));
        let n = self.input_buffer.len();
        if n == 2 && self.input_buffer[0] == 'g' && self.input_buffer[1] == 'g' {
            assert(keys =~= seq!['g', 'g']);
            self.focus = 0;
            self.clear_pending();
            return EventResult::Consumed(self.make_select_cb());
        }
        assert(keys != seq!['g', 'g']) by {
            if keys == seq!['g', 'g'] {
                assert(keys.len() == 2 && keys[0] == 'g' && keys[1] == 'g');
            }
        }
        if n == 1 && self.input_buffer[0] == 'G' {
            assert(keys =~= seq!['G']);
            let num = get_number(&self.input_num_buffer);
            if num > 0 {
                let len = self.items.len();
                self.focus = if num - 1 < len {
                    num - 1
                } else if len == 0 {
                    0
                } else {
                    len - 1
                };
                self.clear_pending();
                return EventResult::Consumed(self.make_select_cb());
            }
        }
        assert(keys == seq!['G'] ==> n == 1 && keys[0] == 'G');
        let open = extended && n == 1 && self.input_buffer[0] == 'g';
        assert(open == (extended && keys == seq!['g'])) by {
            if keys == seq!['g'] {
                assert(keys.len() == 1 && keys[0] == 'g');
            }
            if extended && n == 1 && keys[0] == 'g' {
                assert(keys =~= seq!['g']);
            }
        }
        if !open {
            self.clear_pending();
        }
        self.on_single_key(event)
    }

    /// A compact list only opens its pop-up menu, on `<Enter>` or a click on it.
    fn on_event_popup(&mut self, event: Event) -> (r: EventResult<T>)
        ensures
            final(self)@ == old(self)@.popup_step(event).0,
            final(self)@.answer_ok(old(self)@.popup_step(event).1, r),
    {
        match event {
            Event::Key(Key::Enter) => EventResult::Consumed(Some(Callback::Popup)),
            Event::Mouse {
                offset,
                position,
                event: MouseEvent::Release(MouseButton::Left),
            } => {
                if position.x >= offset.x && position.y >= offset.y && position.x - offset.x
                    < self.last_size.x && position.y - offset.y < self.last_size.y {
                    EventResult::Consumed(Some(Callback::Popup))
                } else {
                    EventResult::Ignored
                }
            },
            _ => EventResult::Ignored,
        }
    }

    /// Handles one input event.
    ///
    /// Returns `Ignored` when the event is not for this list, or `Consumed`
    /// with the command, if any, that the host should run.
    pub fn on_event(&mut self, event: Event) -> (r: EventResult<T>)
        requires
            old(self)@.wf(),
        ensures
            final(self)@ == old(self)@.step(event).0,
            final(self)@.wf(),
            final(self)@.answer_ok(old(self)@.step(event).1, r),
    {
        if self.popup {
            self.on_event_popup(event)
        } else {
            self.on_event_regular(event)
        }
    }
}

impl<T> Default for MultiSelectView<T> {
    fn default() -> (r: Self)
        ensures
            r@.is_fresh(),
            r@.wf(),
    {
        Self::new()
    }
}

impl<T> MultiSelectView<T> {
    /// Mutable access to the label and value of row `i`, or `None` past the end.
    pub fn get_item_mut(&mut self, i: usize) -> (r: Option<(&mut String, &mut T)>)
        ensures
            r is Some == (i < old(self)@.len()),
            r is None ==> final(self)@ == old(self)@,
            r matches Some((l, v)) ==> {
                &&& (l@, *v) == old(self)@.items[i as int]
                &&& final(self)@ == (ListState {
                    items: old(self)@.items.update(i as int, (final(l)@, *final(v))),
                    ..old(self)@
                })
            },
    {
        proof {
            self.lemma_view();
        }
        let ghost s0 = self@;
        if i >= self.items.len() {
            None
        } else {
            let item = &mut self.items[i];
            proof {
                assert(after_borrow(self.items)@.map_values(|it: Item<T>| item_view(it))
                    =~= s0.items.update(i as int, item_view(*final(item))));
            }
            Some((&mut item.label, &mut item.value))
        }
    }
}

impl MultiSelectView<String> {
    /// Adds a row whose value is its own label.
    pub fn add_item_str(&mut self, label: String)
        ensures
            final(self)@ == (ListState {
                items: old(self)@.items.push((label@, label)),
                ..old(self)@
            }),
    {
        let value = label.clone();
        self.add_item(label, value);
    }

    /// Adds a row whose value is its own label. Chainable variant.
    pub fn item_str(self, label: String) -> (r: Self)
        ensures
            r@ == (ListState { items: self@.items.push((label@, label)), ..self@ }),
    {
        let mut s = self;
        s.add_item_str(label);
        s
    }

    /// Inserts a row whose value is its own label at position `index`; an
    /// index past the end inserts at the end.
    pub fn insert_item_str(&mut self, index: usize, label: String)
        ensures
            final(self)@ == (ListState {
                items: old(self)@.items.insert(
                    insert_position(index as int, old(self)@.len()),
                    (label@, label),
                ),
                ..old(self)@
            }),
    {
        let value = label.clone();
        self.insert_item(index, label, value);
    }

    /// Adds a row for each string, in order; each value is its own label.
    pub fn add_all_str(&mut self, labels: Vec<String>)
        ensures
            final(self)@ == (ListState {
                items: old(self)@.items + labels@.map_values(|l: String| (l@, l)),
                ..old(self)@
            }),
    {
        let ghost start = self@;
        let mut i: usize = 0;
        while i < labels.len()
            invariant
                i <= labels@.len(),
                self@ == (ListState {
                    items: start.items + labels@.take(i as int).map_values(|l: String| (l@, l)),
                    ..start
                }),
            decreases labels@.len() - i,
        {
            let label = labels[i].clone();
            self.add_item_str(label);
            proof {
                assert(labels@.take(i + 1) =~= labels@.take(i as int).push(labels@[i as int]));
                assert(labels@.take(i + 1).map_values(|l: String| (l@, l)) =~= labels@.take(
                    i as int,
                ).map_values(|l: String| (l@, l)).push((labels@[i as int]@, labels@[i as int])));
            }
            i = i + 1;
        }
        proof {
            assert(labels@.take(i as int) =~= labels@);
        }
    }

    /// Adds a row for each string. Chainable variant.
    pub fn with_all_str(self, labels: Vec<String>) -> (r: Self)
        ensures
            r@ == (ListState {
                items: self@.items + labels@.map_values(|l: String| (l@, l)),
                ..self@
            }),
    {
        let mut s = self;
        s.add_all_str(labels);
        s
    }
}

} // verus!
