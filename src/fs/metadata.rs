//! Permission and ownership text of a file system entry.

use vstd::prelude::*;

verus! {

pub const USER_READ: u32 = 256;
pub const USER_WRITE: u32 = 128;
pub const USER_EXECUTE: u32 = 64;
pub const GROUP_READ: u32 = 32;
pub const GROUP_WRITE: u32 = 16;
pub const GROUP_EXECUTE: u32 = 8;
pub const OTHER_READ: u32 = 4;
pub const OTHER_WRITE: u32 = 2;
pub const OTHER_EXECUTE: u32 = 1;

/// Whether all the bits of `bit` are set in `bits`.
pub open spec fn has_bit(bits: u32, bit: u32) -> bool {
    bits & bit == bit
}

/// The nine permission flags of a Unix mode.
#[derive(Clone, Copy, Debug, PartialEq, Eq, Structural)]
pub struct Permissions {
    pub user_read: bool,
    pub user_write: bool,
    pub user_execute: bool,
    pub group_read: bool,
    pub group_write: bool,
    pub group_execute: bool,
    pub other_read: bool,
    pub other_write: bool,
    pub other_execute: bool,
}

/// The flags that mode `bits` sets.
pub open spec fn permissions_of(bits: u32) -> Permissions {
    Permissions {
        user_read: has_bit(bits, USER_READ),
        user_write: has_bit(bits, USER_WRITE),
        user_execute: has_bit(bits, USER_EXECUTE),
        group_read: has_bit(bits, GROUP_READ),
        group_write: has_bit(bits, GROUP_WRITE),
        group_execute: has_bit(bits, GROUP_EXECUTE),
        other_read: has_bit(bits, OTHER_READ),
        other_write: has_bit(bits, OTHER_WRITE),
        other_execute: has_bit(bits, OTHER_EXECUTE),
    }
}

/// `mark` when the flag is set, `-` when it is not.
pub open spec fn flag(on: bool, mark: char) -> char {
    if on {
        mark
    } else {
        '-'
    }
}

/// The `rwxrwxrwx` text of a set of flags.
pub open spec fn permission_text(p: Permissions) -> Seq<char> {
    seq![
        flag(p.user_read, 'r'),
        flag(p.user_write, 'w'),
        flag(p.user_execute, 'x'),
        flag(p.group_read, 'r'),
        flag(p.group_write, 'w'),
        flag(p.group_execute, 'x'),
        flag(p.other_read, 'r'),
        flag(p.other_write, 'w'),
        flag(p.other_execute, 'x'),
    ]
}

fn push_flag(repr: &mut String, on: bool, mark: &str)
    requires
        mark@.len() == 1,
    ensures
        final(repr)@ == old(repr)@.push(flag(on, mark@[0])),
{
    if on {
        repr.append(mark);
    } else {
        proof {
            reveal_strlit("-");
        }
        repr.append("-");
    }
    proof {
        assert(final(repr)@ =~= old(repr)@.push(flag(on, mark@[0])));
    }
}

impl Permissions {
    /// Reads the nine permission flags of a Unix mode.
    pub fn from(bits: u32) -> (r: Permissions)
        ensures
            r == permissions_of(bits),
    {
        Permissions {
            user_read: bits & USER_READ == USER_READ,
            user_write: bits & USER_WRITE == USER_WRITE,
            user_execute: bits & USER_EXECUTE == USER_EXECUTE,
            group_read: bits & GROUP_READ == GROUP_READ,
            group_write: bits & GROUP_WRITE == GROUP_WRITE,
            group_execute: bits & GROUP_EXECUTE == GROUP_EXECUTE,
            other_read: bits & OTHER_READ == OTHER_READ,
            other_write: bits & OTHER_WRITE == OTHER_WRITE,
            other_execute: bits & OTHER_EXECUTE == OTHER_EXECUTE,
        }
    }

    /// The flags as `rwxrwxrwx`, with `-` for each flag not set.
    pub fn to_string(&self) -> (r: String)
        ensures
            r@ == permission_text(*self),
    {
        let mut repr = rwx(self.user_read, self.user_write, self.user_execute);
        let group = rwx(self.group_read, self.group_write, self.group_execute);
        let other = rwx(self.other_read, self.other_write, self.other_execute);
        repr.append(group.as_str());
        repr.append(other.as_str());
        proof {
            assert(repr@ =~= permission_text(*self));
        }
        repr
    }
}

/// One `rwx` triple.
fn rwx(read: bool, write: bool, execute: bool) -> (r: String)
    ensures
        r@ == seq![flag(read, 'r'), flag(write, 'w'), flag(execute, 'x')],
{
    proof {
        reveal_strlit("r");
        reveal_strlit("w");
        reveal_strlit("x");
    }
    let mut repr = String::new();
    push_flag(&mut repr, read, "r");
    push_flag(&mut repr, write, "w");
    push_flag(&mut repr, execute, "x");
    proof {
        assert(repr@ =~= seq![flag(read, 'r'), flag(write, 'w'), flag(execute, 'x')]);
    }
    repr
}

/// What the host read about an entry: its type, mode bits and owners' names.
pub struct Metadata {
    pub is_dir: bool,
    pub mode: u32,
    pub user: String,
    pub group: String,
}

/// The status text of an entry: `d` or `-`, the permission flags, then
/// ` user:group`.
pub open spec fn details_text(meta: Metadata) -> Seq<char> {
    seq![if meta.is_dir { 'd' } else { '-' }] + permission_text(permissions_of(meta.mode))
        + seq![' '] + meta.user@ + seq![':'] + meta.group@
}

/// Represents an entry: a file or a directory.
pub struct Entry {
    path: String,
}

impl Entry {
    pub fn from(path: String) -> (r: Entry)
        ensures
            r.path() == path,
    {
        Entry { path }
    }

    pub closed spec fn path(&self) -> String {
        self.path
    }

    /// The path of this entry.
    pub fn get_path(&self) -> (r: &String)
        ensures
            *r == self.path(),
    {
        &self.path
    }

    /// The permissions and owners of this entry, from what the host read
    /// about its path, as in `drwxr-xr-x user:group`.
    pub fn permission_string(&self, meta: &Metadata) -> (r: String)
        ensures
            r@ == details_text(*meta),
    {
        proof {
            reveal_strlit("d");
            reveal_strlit("-");
            reveal_strlit(" ");
            reveal_strlit(":");
        }
        let mut repr = if meta.is_dir {
            String::from_str("d")
        } else {
            String::from_str("-")
        };
        let perms = Permissions::from(meta.mode).to_string();
        repr.append(perms.as_str());
        repr.append(" ");
        repr.append(meta.user.as_str());
        repr.append(":");
        repr.append(meta.group.as_str());
        proof {
            assert(repr@ =~= details_text(*meta));
        }
        repr
    }
}

} // verus!
