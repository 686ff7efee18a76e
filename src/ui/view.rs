//! A directory seen as the names of its entries.

use vstd::prelude::*;

use crate::fs::path::{file_name, path_file_name};

verus! {

/// The name a path is shown with: its last component, or empty when it has none.
pub open spec fn name_of(p: Seq<char>) -> Seq<char> {
    match path_file_name(p) {
        Some(n) => n,
        None => Seq::empty(),
    }
}

fn name_for(p: &String) -> (r: String)
    ensures
        r@ == name_of(p@),
{
    match file_name(p.as_str()) {
        Some(n) => n,
        None => String::new(),
    }
}

/// A directory and the paths of its entries.
pub struct MyView {
    pub path_buf: String,
    pub selected: usize,
    pub count: usize,
    pub entries: Vec<String>,
}

impl MyView {
    pub open spec fn path(&self) -> Seq<char> {
        self.path_buf@
    }

    pub open spec fn entry_paths(&self) -> Seq<Seq<char>> {
        self.entries.deep_view()
    }

    /// A view of no directory.
    pub fn new() -> (r: MyView)
        ensures
            r.path().len() == 0,
            r.entry_paths().len() == 0,
            r.selected == 0,
            r.count == 0,
    {
        let r = MyView { path_buf: String::new(), selected: 0, count: 0, entries: Vec::new() };
        assert(r.entry_paths() =~= Seq::<Seq<char>>::empty());
        r
    }

    /// A view of directory `path`, whose entries the host read as `entries`.
    pub fn from(path: String, entries: Vec<String>) -> (r: MyView)
        ensures
            r.path() == path@,
            r.entry_paths() == entries.deep_view(),
            r.selected == 0,
            r.count == entries@.len(),
    {
        let count = entries.len();
        MyView { path_buf: path, selected: 0, count, entries }
    }

    /// The name of each entry, in order (empty for a path without one).
    pub fn get_entries(&self) -> (r: Vec<String>)
        ensures
            r@.len() == self.entry_paths().len(),
            forall|i: int| 0 <= i < r@.len() ==> #[trigger] r@[i]@ == name_of(self.entry_paths()[i]),
    {
        let mut names: Vec<String> = Vec::new();
        let mut i: usize = 0;
        while i < self.entries.len()
            invariant
                i <= self.entries@.len(),
                names@.len() == i,
                forall|j: int| 0 <= j < i ==> #[trigger] names@[j]@ == name_of(self.entries@[j]@),
            decreases self.entries@.len() - i,
        {
            names.push(name_for(&self.entries[i]));
            i = i + 1;
        }
        names
    }

    /// The name of the directory itself (empty for a path without one).
    pub fn get_name(&self) -> (r: String)
        ensures
            r@ == name_of(self.path()),
    {
        name_for(&self.path_buf)
    }
}

} // verus!
