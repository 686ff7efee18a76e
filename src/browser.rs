//! The navigation controller: one tab and its two panes (parent and
//! current), kept in step on every move. The host reads the directories;
//! this module decides what the panes show and where their focus stands.

use vstd::prelude::*;

use crate::error::{Error, ErrorKind};
use crate::fs::listing::{listing_names, listing_of, listing_reorders, DirItem};
use crate::fs::path::{join, parent, path_join, path_parent};
use crate::ui::multi_select::{clamp_index, ListState, MultiSelectView};
use crate::ui::tab::{
    back_from, forward_to, remember, remembered, Tab, TabView,
};

verus! {

/// `rows` list the entries `names` of directory `dir`, in that order, each
/// labelled with its name (its final path component) and valued with its path.
pub open spec fn rows_list(rows: Seq<(Seq<char>, String)>, dir: Seq<char>, names: Seq<Seq<char>>) -> bool {
    &&& rows.len() == names.len()
    &&& forall|i: int|
        0 <= i < names.len() ==> #[trigger] rows[i].0 == names[i] && rows[i].1@
            == path_join(dir, names[i])
}

/// The parent pane at the file system root: `/` alone.
pub open spec fn root_rows(rows: Seq<(Seq<char>, String)>) -> bool {
    &&& rows.len() == 1
    &&& rows[0].0 == seq!['/']
    &&& rows[0].1@ == seq!['/']
}

/// The first row from `i` on whose path is `target`, or 0 when none is.
pub open spec fn row_of(rows: Seq<(Seq<char>, String)>, target: Seq<char>, i: nat) -> nat
    decreases rows.len() - i,
{
    if i >= rows.len() {
        0
    } else if rows[i as int].1@ == target {
        i
    } else {
        row_of(rows, target, i + 1)
    }
}

/// The current pane shows directory `t.c_view` read as `entries` (each listed
/// entry exactly once), focused at `focus` (clamped); nothing else of it changed.
pub open spec fn current_shows(
    cur: ListState<String>,
    before: ListState<String>,
    t: TabView,
    entries: Seq<DirItem>,
    show_hidden: bool,
    focus: nat,
) -> bool {
    &&& rows_list(cur.items, t.c_view, listing_of(entries, show_hidden))
    &&& listing_reorders(entries, show_hidden)
    &&& cur == ListState {
        items: cur.items,
        focus: clamp_index(focus as int, cur.items.len()),
        ..before
    }
}

/// The parent pane shows `t.p_view` read as `entries` (or `/` alone at the
/// root), focused on the row of the current directory, and disabled.
pub open spec fn parent_shows(
    par: ListState<String>,
    before: ListState<String>,
    t: TabView,
    entries: Seq<DirItem>,
    show_hidden: bool,
) -> bool {
    match t.p_view {
        None => {
        &&& root_rows(par.items)
        &&& par == ListState { items: par.items, focus: 0, enabled: false, ..before }
        },
        Some(p) => {
        &&& rows_list(par.items, p, listing_of(entries, show_hidden))
        &&& listing_reorders(entries, show_hidden)
        &&& par == ListState {
            items: par.items,
            focus: row_of(par.items, t.c_view, 0),
            enabled: false,
            ..before
        }
        },
    }
}

/// Replaces the rows of `view` by the entries `names` of directory `dir`;
/// the focus goes to 0.
fn fill_pane(view: &mut MultiSelectView<String>, dir: &String, names: &Vec<String>)
    ensures
        rows_list(final(view)@.items, dir@, names.deep_view()),
        final(view)@ == (ListState { items: final(view)@.items, focus: 0, ..old(view)@ }),
{
    view.clear();
    let ghost start = view@;
    let mut i: usize = 0;
    while i < names.len()
        invariant
            i <= names@.len(),
            view@ == (ListState { items: view@.items, ..start }),
            rows_list(view@.items, dir@, names.deep_view().take(i as int)),
        decreases names@.len() - i,
    {
        let label = names[i].clone();
        let path = join(dir.as_str(), names[i].as_str());
        let ghost before = view@.items;
        view.add_item(label, path);
        proof {
            let taken = names.deep_view().take(i + 1);
            assert forall|j: int| 0 <= j < taken.len() implies #[trigger] view@.items[j].0
                == taken[j] && view@.items[j].1@ == path_join(dir@, taken[j]) by {
                if j < i {
                    assert(taken[j] == names.deep_view().take(i as int)[j]);
                }
            }
        }
        i = i + 1;
    }
    proof {
        assert(names.deep_view().take(i as int) =~= names.deep_view());
    }
}

/// The first row of `view` whose path is `target`, or 0.
fn find_row(view: &MultiSelectView<String>, target: &String) -> (r: usize)
    ensures
        r == row_of(view@.items, target@, 0),
        r == 0 || r < view@.len(),
{
    let n = view.len();
    let mut i: usize = 0;
    while i < n
        invariant
            n == view@.len(),
            i <= n,
            row_of(view@.items, target@, 0) == row_of(view@.items, target@, i as nat),
        decreases n - i,
    {
        match view.get_item(i) {
            Some((_, path)) => {
                if *path == *target {
                    return i;
                }
            },
            None => {},
        }
        i = i + 1;
    }
    0
}

/// The navigation state of the browser: a tab, and the panes showing its
/// parent and current directories.
pub struct App {
    pub tab: Option<Tab>,
    /// The parent pane: always disabled, it shows where the current
    /// directory sits.
    pub parent: MultiSelectView<String>,
    /// The current pane, with a selection handler (the host's preview).
    pub current: MultiSelectView<String>,
    /// Whether entries whose name starts with a dot are listed.
    pub show_hidden: bool,
}

impl App {
    /// Both panes are well formed.
    pub open spec fn wf(&self) -> bool {
        self.parent@.wf() && self.current@.wf()
    }

    /// An empty browser: no tab yet, hidden entries not listed, two fresh
    /// panes (empty, enabled, regular mode, nothing pending), the current one
    /// with a selection handler.
    pub fn new() -> (r: App)
        ensures
            r.wf(),
            r.tab is None,
            r.parent@.is_fresh(),
            (ListState { on_select: false, ..r.current@ }).is_fresh(),
            r.current@.on_select,
            !r.show_hidden,
    {
        App {
            tab: None,
            parent: MultiSelectView::new(),
            current: MultiSelectView::new().on_select(),
            show_hidden: false,
        }
    }

    /// Lists the tab's directories in the panes: the current one focused at
    /// `focus`, the parent one at the current directory's row.
    fn show_panes(
        &mut self,
        focus: usize,
        current_entries: &Vec<DirItem>,
        parent_entries: &Vec<DirItem>,
    ) -> (i: usize)
        requires
            old(self).wf(),
            old(self).tab is Some,
        ensures
            final(self).wf(),
            final(self).tab == old(self).tab,
            final(self).show_hidden == old(self).show_hidden,
            current_shows(
                final(self).current@,
                old(self).current@,
                old(self).tab.unwrap()@,
                current_entries@,
                old(self).show_hidden,
                focus as nat,
            ),
            parent_shows(
                final(self).parent@,
                old(self).parent@,
                old(self).tab.unwrap()@,
                parent_entries@,
                old(self).show_hidden,
            ),
            i == final(self).parent@.focus,
    {
        let ghost t = self.tab.unwrap()@;
        let ghost cur0 = self.current@;
        let ghost par0 = self.parent@;
        let show_hidden = self.show_hidden;
        let tab = match &self.tab {
            Some(tab) => tab,
            None => {
                return 0;
            },
        };
        let names = listing_names(current_entries, show_hidden);
        fill_pane(&mut self.current, &tab.c_view, &names);
        let _ = self.current.set_selection(focus);
        let mut i: usize = 0;
        match &tab.p_view {
            None => {
                self.parent.clear();
                proof {
                    reveal_strlit("/");
                }
                self.parent.add_item(String::from_str("/"), String::from_str("/"));
                self.parent.set_enabled(false);
                let _ = self.parent.set_selection(0);
                proof {
                    assert(self.parent@.items[0].0 =~= seq!['/']);
                    assert(self.parent@.items[0].1@ =~= seq!['/']);
                    assert(self.parent@ == (ListState {
                        items: self.parent@.items,
                        focus: 0,
                        enabled: false,
                        ..par0
                    }));
                }
            },
            Some(p) => {
                let names = listing_names(parent_entries, show_hidden);
                fill_pane(&mut self.parent, p, &names);
                i = find_row(&self.parent, &tab.c_view);
                let _ = self.parent.set_selection(i);
                self.parent.set_enabled(false);
                assert(clamp_index(i as int, self.parent@.len()) == i);
            },
        }
        i
    }

    /// Opens `tab`: lists its current directory (read as `current_entries`)
    /// focused on the first row, and its parent (read as `parent_entries`,
    /// unused at the root) focused on the current directory.
    pub fn add_tab(&mut self, tab: Tab, current_entries: &Vec<DirItem>, parent_entries: &Vec<DirItem>)
        requires
            old(self).wf(),
        ensures
            final(self).wf(),
            final(self).tab matches Some(t) && t@ == tab@,
            final(self).show_hidden == old(self).show_hidden,
            current_shows(
                final(self).current@,
                old(self).current@,
                tab@,
                current_entries@,
                old(self).show_hidden,
                0,
            ),
            parent_shows(
                final(self).parent@,
                old(self).parent@,
                tab@,
                parent_entries@,
                old(self).show_hidden,
            ),
    {
        self.tab = Some(tab);
        let _ = self.show_panes(0, current_entries, parent_entries);
    }

    /// Lists the tab's directories again after a move: the current pane
    /// focused where it was when that directory was last left (0 if never),
    /// the parent pane on the current directory.
    pub fn update_tab(&mut self, current_entries: &Vec<DirItem>, parent_entries: &Vec<DirItem>)
        requires
            old(self).wf(),
            old(self).tab is Some,
        ensures
            final(self).wf(),
            final(self).tab == old(self).tab,
            final(self).show_hidden == old(self).show_hidden,
            current_shows(
                final(self).current@,
                old(self).current@,
                old(self).tab.unwrap()@,
                current_entries@,
                old(self).show_hidden,
                remembered(old(self).tab.unwrap()@),
            ),
            parent_shows(
                final(self).parent@,
                old(self).parent@,
                old(self).tab.unwrap()@,
                parent_entries@,
                old(self).show_hidden,
            ),
    {
        let focus = match &self.tab {
            Some(tab) => match tab.focused.get(&tab.c_view) {
                Some(f) => f,
                None => 0,
            },
            None => 0,
        };
        let _ = self.show_panes(focus, current_entries, parent_entries);
    }

    /// Steps back to the parent directory, remembering the current focus for
    /// the directory left. At the root (no parent) nothing changes. The host
    /// then lists the new directories and calls `update_tab`.
    pub fn go_back(&mut self)
        requires
            old(self).wf(),
            old(self).tab is Some,
        ensures
            final(self).wf(),
            old(self).tab.unwrap()@.p_view is None ==> final(self).tab == old(self).tab,
            old(self).tab.unwrap()@.p_view is Some ==> (final(self).tab matches Some(t) && t@
                == back_from(remember(old(self).tab.unwrap()@, old(self).current@.focus as usize))),
            final(self).current == old(self).current,
            final(self).parent == old(self).parent,
            final(self).show_hidden == old(self).show_hidden,
    {
        let focus = match self.current.selected_id() {
            Some(i) => i,
            None => 0,
        };
        match &mut self.tab {
            Some(tab) => {
                if !tab.at_root() {
                    tab.remember_focus(focus);
                    tab.go_back();
                }
            },
            None => {},
        }
    }

    /// Steps forward into the focused entry of the current pane, remembering
    /// the current focus for the directory left. `is_dir` says whether that
    /// entry is a directory (the host looks); if it is not, or the pane is
    /// empty, nothing changes and the error says why.
    pub fn go_forward(&mut self, is_dir: bool) -> (r: Result<(), Error>)
        requires
            old(self).wf(),
            old(self).tab is Some,
        ensures
            final(self).wf(),
            final(self).current == old(self).current,
            final(self).parent == old(self).parent,
            final(self).show_hidden == old(self).show_hidden,
            r is Ok == (old(self).current@.has_selection() && is_dir),
            r is Ok ==> (final(self).tab matches Some(t) && t@ == forward_to(
                remember(old(self).tab.unwrap()@, old(self).current@.focus as usize),
                old(self).current@.focused_value()@,
            )),
            r is Err ==> final(self).tab == old(self).tab,
            !old(self).current@.has_selection() ==> (r matches Err(e) && e.kind() is NothingSelected),
            old(self).current@.has_selection() && !is_dir ==> (r matches Err(e) && e.kind() matches ErrorKind::NotADirectory { dirname } && dirname@ == old(
                self,
            ).current@.focused_value()@),
    {
        let target = match self.current.selection() {
            Some(path) => path.clone(),
            None => {
                return Err(Error::new(ErrorKind::NothingSelected));
            },
        };
        if !is_dir {
            return Err(Error::new(ErrorKind::NotADirectory { dirname: target }));
        }
        let focus = self.current.focus();
        match &mut self.tab {
            Some(tab) => {
                tab.remember_focus(focus);
                let _ = tab.go_forward(target, true);
            },
            None => {},
        }
        Ok(())
    }
}

/// The directory a session starts in, from the command-line argument and
/// the working directory: `.` or `./` is the working directory, `..` or
/// `../` its parent (`None` at the root), anything else the argument itself.
pub open spec fn start_path_of(arg: Seq<char>, cwd: Seq<char>) -> Option<Seq<char>> {
    if arg == seq!['.'] || arg == seq!['.', '/'] {
        Some(cwd)
    } else if arg == seq!['.', '.'] || arg == seq!['.', '.', '/'] {
        path_parent(cwd)
    } else {
        Some(arg)
    }
}

pub fn start_path(arg: &String, cwd: &String) -> (r: Option<String>)
    ensures
        r is Some == start_path_of(arg@, cwd@) is Some,
        r is Some ==> r.unwrap()@ == start_path_of(arg@, cwd@).unwrap(),
{
    proof {
        reveal_strlit(".");
        reveal_strlit("./");
        reveal_strlit("..");
        reveal_strlit("../");
        assert("."@ =~= seq!['.']);
        assert("./"@ =~= seq!['.', '/']);
        assert(".."@ =~= seq!['.', '.']);
        assert("../"@ =~= seq!['.', '.', '/']);
    }
    if *arg == String::from_str(".") || *arg == String::from_str("./") {
        Some(cwd.clone())
    } else if *arg == String::from_str("..") || *arg == String::from_str("../") {
        parent(cwd.as_str())
    } else {
        Some(arg.clone())
    }
}

} // verus!
