//! The navigation state machine: directory stack, current listing, and
//! selection index. It applies logical commands and decides which filesystem
//! operations are needed; the callers perform them and hand back the fresh
//! listing, so every transition here is a pure function of its arguments.

use vstd::prelude::*;
use crate::keys::Command;
use crate::paths;

verus! {

/// What `str::trim` returns for a string: its characters with leading and
/// trailing whitespace removed.
pub uninterp spec fn trim_of(s: Seq<char>) -> Seq<char>;

/// Relies on str::trim: it removes leading and trailing whitespace, depends
/// on the characters alone, and returns a subslice of the input, so the
/// result is never longer than the input.
#[verifier::external_body]
fn trimmed(s: &String) -> (r: String)
    ensures
        r@ == trim_of(s@),
        r@.len() <= s@.len(),
{
    s.trim().to_string()
}

/// `sel` is a valid selection for a listing of `len` entries: strictly below
/// the length, or zero when the listing is empty.
pub open spec fn sel_in_range(sel: int, len: int) -> bool {
    0 <= sel && sel < (if len >= 1 {
        len
    } else {
        1
    })
}

/// The selection index after one command, for a listing of `len` entries:
/// `MoveUp` decrements saturating at zero, `MoveDown` increments clamping to
/// the last entry, and every other command leaves the selection alone here
/// (their own transitions reset it separately).
pub open spec fn sel_after(c: Command, sel: int, len: int) -> int {
    match c {
        Command::MoveUp => if sel >= 1 {
            sel - 1
        } else {
            0
        },
        Command::MoveDown => {
            let cap = if len >= 1 {
                len - 1
            } else {
                0
            };
            if sel + 1 <= cap {
                sel + 1
            } else {
                cap
            }
        },
        _ => sel,
    }
}

/// The selection index after a whole sequence of commands.
pub open spec fn sel_after_all(cmds: Seq<Command>, sel: int, len: int) -> int
    decreases cmds.len(),
{
    if cmds.len() == 0 {
        sel
    } else {
        sel_after_all(cmds.drop_first(), sel_after(cmds[0], sel, len), len)
    }
}

/// However long a sequence of `MoveUp` and `MoveDown` commands runs over a
/// listing of `len` entries, a valid selection stays valid: within
/// `[0, len - 1]`, or zero when the listing is empty.
pub proof fn lemma_moves_keep_selection_in_range(cmds: Seq<Command>, sel: int, len: int)
    requires
        sel_in_range(sel, len),
        forall|i: int|
            0 <= i < cmds.len() ==> (#[trigger] cmds[i]) == Command::MoveUp || cmds[i]
                == Command::MoveDown,
    ensures
        sel_in_range(sel_after_all(cmds, sel, len), len),
    decreases cmds.len(),
{
    if cmds.len() > 0 {
        lemma_moves_keep_selection_in_range(cmds.drop_first(), sel_after(cmds[0], sel, len), len);
    }
}

/// The whole browsing state: the stack of directory names descended into
/// from the root, the entries of the current directory, and which entry is
/// selected.
pub struct Browser {
    pub path_stack: Vec<String>,
    pub listing: Vec<String>,
    pub selected: usize,
}

impl Browser {
    /// The selection always points at an entry of the listing (or at zero
    /// when the listing is empty).
    pub open spec fn inv(self) -> bool {
        sel_in_range(self.selected as int, self.listing.len() as int)
    }

    /// A browser at the root with the given initial listing.
    pub fn new(initial_listing: Vec<String>) -> (r: Browser)
        ensures
            r.inv(),
            r.path_stack@ == Seq::<String>::empty(),
            r.listing == initial_listing,
            r.selected == 0,
    {
        let r = Browser { path_stack: Vec::new(), listing: initial_listing, selected: 0 };
        proof {
            assert(r.path_stack@ =~= Seq::<String>::empty());
        }
        r
    }

    /// The resolved path of the current directory.
    pub fn current_path(&self) -> (r: String)
        ensures
            r@ == paths::joined_path(self.path_stack.deep_view()),
    {
        paths::join_path(&self.path_stack)
    }

    /// Moves the selection one entry up, saturating at the first entry.
    pub fn move_up(&mut self)
        ensures
            final(self).path_stack == old(self).path_stack,
            final(self).listing == old(self).listing,
            final(self).selected == sel_after(
                Command::MoveUp,
                old(self).selected as int,
                old(self).listing.len() as int,
            ),
            old(self).inv() ==> final(self).inv(),
    {
        if self.selected >= 1 {
            self.selected = self.selected - 1;
        }
    }

    /// Moves the selection one entry down, clamping to the last entry.
    pub fn move_down(&mut self)
        requires
            old(self).inv(),
        ensures
            final(self).path_stack == old(self).path_stack,
            final(self).listing == old(self).listing,
            final(self).selected == sel_after(
                Command::MoveDown,
                old(self).selected as int,
                old(self).listing.len() as int,
            ),
            final(self).inv(),
    {
        let cap = if self.listing.len() >= 1 {
            self.listing.len() - 1
        } else {
            0
        };
        if self.selected < cap {
            self.selected = self.selected + 1;
        } else {
            self.selected = cap;
        }
    }

    /// The resolved path of the selected entry, used for the metadata lookup
    /// that decides whether `Open` may descend; `None` when the listing is
    /// empty.
    pub fn selected_entry_path(&self) -> (r: Option<String>)
        requires
            self.inv(),
        ensures
            r is None <==> self.listing.len() == 0,
            r is Some ==> r.unwrap()@ == paths::joined_path(self.path_stack.deep_view()) + "/"@
                + self.listing.deep_view()[self.selected as int],
    {
        if self.listing.len() == 0 {
            return None;
        }
        let mut p = paths::join_path(&self.path_stack);
        p.append("/");
        p.append(self.listing[self.selected].as_str());
        Some(p)
    }

    /// Applies `Open`: when the selected entry is a directory (`is_dir`,
    /// decided by the caller's metadata lookup), its name is pushed onto the
    /// stack, the listing is replaced by `new_listing` (the entries of the
    /// opened directory), and the selection resets; when it is not, or the
    /// listing is empty, the state is left exactly as it was.
    pub fn open(&mut self, is_dir: bool, new_listing: Vec<String>)
        requires
            old(self).inv(),
        ensures
            final(self).inv(),
            old(self).listing.len() == 0 || !is_dir ==> *final(self) == *old(self),
            old(self).listing.len() > 0 && is_dir ==> {
                &&& final(self).path_stack@ == old(self).path_stack@.push(
                    old(self).listing@[old(self).selected as int],
                )
                &&& final(self).listing == new_listing
                &&& final(self).selected == 0
            },
    {
        if self.listing.len() > 0 && is_dir {
            let name = self.listing[self.selected].clone();
            self.path_stack.push(name);
            self.listing = new_listing;
            self.selected = 0;
        }
    }

    /// The resolved path one level up, which `Back` would return to; `None`
    /// at the root.
    pub fn parent_path(&self) -> (r: Option<String>)
        ensures
            r is None <==> self.path_stack.len() == 0,
            r is Some ==> r.unwrap()@ == paths::joined_path(
                self.path_stack.deep_view().drop_last(),
            ),
    {
        if self.path_stack.len() == 0 {
            return None;
        }
        let n = self.path_stack.len() - 1;
        let p = paths::join_path_prefix(&self.path_stack, n);
        proof {
            assert(self.path_stack.deep_view().take(n as int) =~= self.path_stack.deep_view().drop_last());
        }
        Some(p)
    }

    /// Applies `Back`: on an empty stack nothing changes at all; otherwise
    /// the top of the stack is popped, the listing is replaced by
    /// `new_listing` (the entries of the parent directory), and the
    /// selection resets.
    pub fn back(&mut self, new_listing: Vec<String>)
        requires
            old(self).inv(),
        ensures
            final(self).inv(),
            old(self).path_stack.len() == 0 ==> *final(self) == *old(self),
            old(self).path_stack.len() > 0 ==> {
                &&& final(self).path_stack@ == old(self).path_stack@.drop_last()
                &&& final(self).listing == new_listing
                &&& final(self).selected == 0
            },
    {
        if self.path_stack.len() > 0 {
            self.path_stack.pop();
            self.listing = new_listing;
            self.selected = 0;
            proof {
                assert(self.path_stack@ =~= old(self).path_stack@.drop_last());
            }
        }
    }

    /// The name of the selected entry, which the rename prompt shows;
    /// `None` when the listing is empty, in which case `Rename` is a no-op.
    pub fn rename_target(&self) -> (r: Option<String>)
        requires
            self.inv(),
        ensures
            r is None <==> self.listing.len() == 0,
            r is Some ==> r.unwrap()@ == self.listing.deep_view()[self.selected as int],
    {
        if self.listing.len() == 0 {
            return None;
        }
        Some(self.listing[self.selected].clone())
    }

    /// Decides a rename from an already-trimmed replacement name: `None`
    /// exactly when the listing is empty or the name is empty, so nothing is
    /// renamed then; otherwise the old and new resolved paths, both under
    /// the current directory.
    pub fn rename_paths(&self, new_name: &String) -> (r: Option<(String, String)>)
        requires
            self.inv(),
        ensures
            r is None <==> (self.listing.len() == 0 || new_name@.len() == 0),
            r is Some ==> {
                &&& r.unwrap().0@ == paths::joined_path(self.path_stack.deep_view()) + "/"@
                    + self.listing.deep_view()[self.selected as int]
                &&& r.unwrap().1@ == paths::joined_path(self.path_stack.deep_view()) + "/"@
                    + new_name@
            },
    {
        if self.listing.len() == 0 || new_name.as_str().unicode_len() == 0 {
            return None;
        }
        let base = paths::join_path(&self.path_stack);
        let mut old_path = base.clone();
        old_path.append("/");
        old_path.append(self.listing[self.selected].as_str());
        let mut new_path = base;
        new_path.append("/");
        new_path.append(new_name.as_str());
        Some((old_path, new_path))
    }

    /// Decides a rename from the raw line the user typed: the line is
    /// trimmed first, and a rename happens only when something is left, so
    /// an input that is empty after trimming changes nothing.
    pub fn rename_request(&self, raw_input: &String) -> (r: Option<(String, String)>)
        requires
            self.inv(),
        ensures
            r is None <==> (self.listing.len() == 0 || trim_of(raw_input@).len() == 0),
            r is Some ==> {
                &&& r.unwrap().0@ == paths::joined_path(self.path_stack.deep_view()) + "/"@
                    + self.listing.deep_view()[self.selected as int]
                &&& r.unwrap().1@ == paths::joined_path(self.path_stack.deep_view()) + "/"@
                    + trim_of(raw_input@)
            },
    {
        let t = trimmed(raw_input);
        self.rename_paths(&t)
    }

    /// Applies the listing refresh after a successful rename: the stack is
    /// untouched, the listing is replaced by `new_listing`, and the
    /// selection re-clamps to the last entry of the new listing if it would
    /// point past the end.
    pub fn apply_rename(&mut self, new_listing: Vec<String>)
        ensures
            final(self).inv(),
            final(self).path_stack == old(self).path_stack,
            final(self).listing == new_listing,
            final(self).selected as int == {
                let cap = if new_listing.len() >= 1 {
                    new_listing.len() - 1
                } else {
                    0
                };
                if old(self).selected as int <= cap as int {
                    old(self).selected as int
                } else {
                    cap as int
                }
            },
    {
        self.listing = new_listing;
        let cap = if self.listing.len() >= 1 {
            self.listing.len() - 1
        } else {
            0
        };
        if self.selected > cap {
            self.selected = cap;
        }
    }

    /// Opening a directory and stepping back restores the directory stack
    /// to its prior value: the states before and after are related exactly
    /// as the contracts of `open` (with a directory selected) and `back`
    /// (with the then non-empty stack) relate them, and `back`'s own
    /// contract already leaves the selection at zero.
    pub proof fn lemma_open_then_back_restores_stack(s0: Browser, s1: Browser, s2: Browser)
        requires
            s0.inv(),
            s0.listing.len() > 0,
            s1.path_stack@ == s0.path_stack@.push(s0.listing@[s0.selected as int]),
            s2.path_stack@ == s1.path_stack@.drop_last(),
        ensures
            s2.path_stack@ == s0.path_stack@,
    {
        assert(s0.path_stack@.push(s0.listing@[s0.selected as int]).drop_last()
            =~= s0.path_stack@);
    }
}

} // verus!
