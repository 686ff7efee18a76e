//! Key sequences and the default key map.

use vstd::prelude::*;

use crate::event::Event;

verus! {

/// Modifier held with a key.
#[derive(Clone, Copy, Debug, PartialEq, Eq, Structural)]
pub enum Modifier {
    Alt,
    Ctrl,
    /// Not needed for letters: a capital letter already means Shift.
    Shift,
    AltCtrl,
    AltShift,
    CtrlShift,
    NoMod,
}

/// `c` with an ASCII lower-case letter turned into its capital.
pub open spec fn ascii_upper(c: char) -> char {
    if 0x61 <= (c as u32) <= 0x7a {
        (((c as u32) - 0x20) as u8) as char
    } else {
        c
    }
}

/// Turns an ASCII lower-case letter into its capital, as
/// `char::to_ascii_uppercase` does.
fn to_ascii_uppercase(c: char) -> (r: char)
    ensures
        r == ascii_upper(c),
{
    if (c as u32) >= 0x61 && (c as u32) <= 0x7a {
        (((c as u32) - 0x20) as u8) as char
    } else {
        c
    }
}

pub open spec fn char_event(c: char) -> Event {
    Event::Char(c)
}

/// The events a binding stands for.
pub open spec fn events_of(modifier: Modifier, key: Seq<char>) -> Seq<Event> {
    match modifier {
        Modifier::Alt => if key.len() > 0 {
            seq![Event::AltChar(key[0])]
        } else {
            Seq::empty()
        },
        Modifier::Ctrl => if key.len() > 0 {
            seq![Event::CtrlChar(key[0])]
        } else {
            Seq::empty()
        },
        Modifier::Shift => if key.len() > 0 {
            seq![Event::Char(ascii_upper(key[0]))]
        } else {
            Seq::empty()
        },
        Modifier::NoMod => key.map_values(|c: char| char_event(c)),
        _ => Seq::empty(),
    }
}

/// A key binding: the keys to type, the modifier, whether a count may
/// precede it, and the operation it triggers (kept by the host).
pub struct KeySequence<F> {
    pub takes_count: bool,
    pub max_count: Option<i8>,
    pub modifier: Modifier,
    pub key: Vec<char>,
    pub operation: F,
}

impl<F> KeySequence<F> {
    pub fn new(takes_count: bool, max_count: Option<i8>, modifier: Modifier, key: Vec<char>, operation: F) -> (r: Self)
        ensures
            r.takes_count == takes_count,
            r.max_count == max_count,
            r.modifier == modifier,
            r.key == key,
            r.operation == operation,
    {
        KeySequence { takes_count, max_count, modifier, key, operation }
    }

    /// The events the binding stands for, with whether it takes a count.
    /// With a modifier only the first key counts; combined modifiers give
    /// no event.
    pub fn emit_sequence(self) -> (r: (bool, Vec<Event>))
        ensures
            r.0 == self.takes_count,
            r.1@ == events_of(self.modifier, self.key@),
    {
        let mut seq: Vec<Event> = Vec::new();
        let n = self.key.len();
        match self.modifier {
            Modifier::Alt => {
                if n > 0 {
                    seq.push(Event::AltChar(self.key[0]));
                }
            },
            Modifier::Ctrl => {
                if n > 0 {
                    seq.push(Event::CtrlChar(self.key[0]));
                }
            },
            Modifier::Shift => {
                if n > 0 {
                    seq.push(Event::Char(to_ascii_uppercase(self.key[0])));
                }
            },
            Modifier::NoMod => {
                let mut i: usize = 0;
                assert(seq@ =~= self.key@.take(0).map_values(|c: char| char_event(c)));
                while i < n
                    invariant
                        n == self.key@.len(),
                        i <= n,
                        seq@ == self.key@.take(i as int).map_values(|c: char| char_event(c)),
                    decreases n - i,
                {
                    let ghost before = seq@;
                    seq.push(Event::Char(self.key[i]));
                    proof {
                        let t = self.key@.take(i + 1);
                        assert(t =~= self.key@.take(i as int).push(self.key@[i as int]));
                        assert(t.map_values(|c: char| char_event(c)) =~= before.push(
                            char_event(self.key@[i as int]),
                        ));
                    }
                    i = i + 1;
                }
                proof {
                    assert(self.key@.take(n as int) =~= self.key@);
                }
            },
            _ => {},
        }
        proof {
            assert(seq@ =~= events_of(self.modifier, self.key@));
        }
        (self.takes_count, seq)
    }
}

/// The actions a key can be bound to.
pub enum KeyBindings<F> {
    Quit(KeySequence<F>),
    SelectUp(KeySequence<F>),
    SelectDown(KeySequence<F>),
    Back(KeySequence<F>),
    Forward(KeySequence<F>),
    Console(KeySequence<F>),
    SelectFirst(KeySequence<F>),
    SelectLast(KeySequence<F>),
    SelectN(KeySequence<F>),
    ShowHidden(KeySequence<F>),
    Yank(KeySequence<F>),
    Cut(KeySequence<F>),
    Paste(KeySequence<F>),
    PasteReplace(KeySequence<F>),
    Rename(KeySequence<F>),
    DeleteWithConfirm(KeySequence<F>),
    NewFile(KeySequence<F>),
    NewDir(KeySequence<F>),
    CreateBookmark(KeySequence<F>),
    JumpToBookmark(KeySequence<F>),
    Search(KeySequence<F>),
    NextMatch(KeySequence<F>),
    PrevMatch(KeySequence<F>),
    Visual(KeySequence<F>),
    VisualAll(KeySequence<F>),
    Refresh(KeySequence<F>),
}

/// The keys of each action, as written in the configuration file.
pub struct KeyMaps {
    pub quit: String,
    pub select_up: String,
    pub select_down: String,
    pub back: String,
    pub forward: String,
    pub prompt: String,
    pub show_hidden: String,
    pub yank: String,
    pub cut: String,
    pub paste: String,
    pub paste_replace: String,
    pub rename: String,
    pub delete_with_cfm: String,
    pub new_file: String,
    pub new_folder: String,
    pub search: String,
    pub next_match: String,
    pub previous_match: String,
    pub visual: String,
    pub visual_all: String,
    pub refresh: String,
}

impl Default for KeyMaps {
    fn default() -> (r: Self)
        ensures
            r.quit@ == "q"@,
            r.select_up@ == "k"@,
            r.select_down@ == "j"@,
            r.back@ == "h"@,
            r.forward@ == "l"@,
            r.prompt@ == ":"@,
            r.show_hidden@ == "za"@,
            r.yank@ == "y"@,
            r.cut@ == "x"@,
            r.paste@ == "p"@,
            r.paste_replace@ == "P"@,
            r.rename@ == "r"@,
            r.delete_with_cfm@ == "dd"@,
            r.new_file@ == "o"@,
            r.new_folder@ == "O"@,
            r.search@ == "/"@,
            r.next_match@ == "n"@,
            r.previous_match@ == "N"@,
            r.visual@ == "v"@,
            r.visual_all@ == "V"@,
            r.refresh@ == "C-r"@,
    {
        KeyMaps {
            quit: String::from_str("q"),
            select_up: String::from_str("k"),
            select_down: String::from_str("j"),
            back: String::from_str("h"),
            forward: String::from_str("l"),
            prompt: String::from_str(":"),
            show_hidden: String::from_str("za"),
            yank: String::from_str("y"),
            cut: String::from_str("x"),
            paste: String::from_str("p"),
            paste_replace: String::from_str("P"),
            rename: String::from_str("r"),
            delete_with_cfm: String::from_str("dd"),
            new_file: String::from_str("o"),
            new_folder: String::from_str("O"),
            search: String::from_str("/"),
            next_match: String::from_str("n"),
            previous_match: String::from_str("N"),
            visual: String::from_str("v"),
            visual_all: String::from_str("V"),
            refresh: String::from_str("C-r"),
        }
    }
}

} // verus!
