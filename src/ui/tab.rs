//! A tab: the current directory, its parent, and the focus remembered for
//! each directory left so far.

use vstd::prelude::*;

use crate::error::{Error, ErrorKind};
use crate::fs::path::{parent, path_parent, strict_prefix};
use crate::ui::focus_memory::{lemma_get_put, memo_get, memo_put, FocusMemory};
use crate::ui::multi_select::clamp_index;

verus! {

/// A tab's paths and focus memory, as the contracts see them. A parent of
/// `None` means there is no further ancestor: the current directory is the
/// file system root, and the parent pane shows only `/`.
pub struct TabView {
    pub title: u32,
    pub p_view: Option<Seq<char>>,
    pub c_view: Seq<char>,
    pub focused: Seq<(Seq<char>, usize)>,
}

/// A new tab at `path`.
pub open spec fn tab_from(title: u32, path: Seq<char>) -> TabView {
    TabView { title, p_view: path_parent(path), c_view: path, focused: Seq::empty() }
}

/// One step back: the parent becomes current, and its own parent (if any)
/// the parent. Nothing changes where there is no parent.
pub open spec fn back_from(t: TabView) -> TabView {
    match t.p_view {
        None => t,
        Some(p) => TabView { p_view: path_parent(p), c_view: p, ..t },
    }
}

/// One step forward into `child`: the current directory becomes the parent.
pub open spec fn forward_to(t: TabView, child: Seq<char>) -> TabView {
    TabView { p_view: Some(t.c_view), c_view: child, ..t }
}

/// `focus` remembered for the current directory.
pub open spec fn remember(t: TabView, focus: usize) -> TabView {
    TabView { focused: memo_put(t.focused, t.c_view, focus), ..t }
}

/// The focus a current pane of `len` rows gets: the one remembered for the
/// current directory (0 if none), clamped into the pane.
pub open spec fn restored_focus(t: TabView, len: nat) -> nat {
    clamp_index(remembered(t) as int, len)
}

/// The focus remembered for the current directory, 0 if none.
pub open spec fn remembered(t: TabView) -> nat {
    match memo_get(t.focused, t.c_view) {
        Some(f) => f as nat,
        None => 0,
    }
}

/// Struct to hold the two directories of Miller's columns that navigation
/// moves between: the parent directory and the current one.
pub struct Tab {
    pub title: u32,
    /// The parent directory; `None` at the file system root.
    pub p_view: Option<String>,
    /// The current directory.
    pub c_view: String,
    pub focused: FocusMemory,
}

pub open spec fn opt_view(o: Option<String>) -> Option<Seq<char>> {
    match o {
        Some(s) => Some(s@),
        None => None,
    }
}

impl View for Tab {
    type V = TabView;

    open spec fn view(&self) -> TabView {
        TabView {
            title: self.title,
            p_view: opt_view(self.p_view),
            c_view: self.c_view@,
            focused: self.focused@,
        }
    }
}

impl Tab {
    /// Creates a tab at `path`. A path without a parent (the root) gets no
    /// parent; this never fails.
    pub fn from(title: u32, path: &String) -> (r: Result<Self, Error>)
        ensures
            r matches Ok(t) && t@ == tab_from(title, path@),
            r matches Ok(t) && (t@.p_view matches Some(p) ==> strict_prefix(p, t@.c_view)),
            path@ == seq!['/'] ==> (r matches Ok(t) && t@.p_view is None),
    {
        let p_view = parent(path.as_str());
        Ok(Tab { title, p_view, c_view: path.clone(), focused: FocusMemory::new() })
    }

    /// Whether the current directory has no parent (it is the root).
    pub fn at_root(&self) -> (r: bool)
        ensures
            r == (self@.p_view is None),
    {
        self.p_view.is_none()
    }

    /// Steps back to the parent directory. At the root this does nothing.
    pub fn go_back(&mut self)
        ensures
            final(self)@ == back_from(old(self)@),
            old(self)@.p_view is None ==> final(self)@ == old(self)@,
            old(self)@.p_view is Some ==> (final(self)@.p_view matches Some(p) ==> strict_prefix(
                p,
                final(self)@.c_view,
            )),
    {
        let up = match &self.p_view {
            Some(p) => p.clone(),
            None => {
                return ;
            },
        };
        self.p_view = parent(up.as_str());
        self.c_view = up;
    }

    /// Steps forward into `path`, which the host found to be a directory
    /// (`is_dir`); the current directory becomes the parent. If it is not a
    /// directory, nothing changes and the error says so.
    pub fn go_forward(&mut self, path: String, is_dir: bool) -> (r: Result<(), Error>)
        ensures
            r is Ok == is_dir,
            is_dir ==> final(self)@ == forward_to(old(self)@, path@),
            !is_dir ==> final(self)@ == old(self)@,
            !is_dir ==> (r matches Err(e) && e.kind() matches ErrorKind::NotADirectory { dirname }
                && dirname@ == path@),
    {
        if !is_dir {
            return Err(Error::new(ErrorKind::NotADirectory { dirname: path }));
        }
        let mut here = path;
        std::mem::swap(&mut self.c_view, &mut here);
        self.p_view = Some(here);
        Ok(())
    }

    /// Remembers `focus` for the current directory.
    pub fn remember_focus(&mut self, focus: usize)
        ensures
            final(self)@ == remember(old(self)@, focus),
    {
        let key = self.c_view.clone();
        self.focused.insert(key, focus);
    }
}

/// Going forward and then back, with the focus remembered on each step,
/// returns to the same directory and restores the focus it had before going
/// forward (in a pane at least that long).
pub proof fn lemma_forward_back_round_trip(
    t: TabView,
    focus: usize,
    child: Seq<char>,
    child_focus: usize,
    len: nat,
)
    requires
        child != t.c_view,
        focus < len,
    ensures
        ({
            let t2 = back_from(remember(forward_to(remember(t, focus), child), child_focus));
            &&& t2.c_view == t.c_view
            &&& t2.p_view == path_parent(t.c_view)
            &&& restored_focus(t2, len) == focus
        }),
{
    let t1 = forward_to(remember(t, focus), child);
    lemma_get_put(t.focused, t.c_view, focus, t.c_view);
    lemma_get_put(t1.focused, child, child_focus, t.c_view);
}

} // verus!
