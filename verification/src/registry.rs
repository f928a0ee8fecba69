//! A registry mapping application names to launch entries.
//!
//! The platform keeps this mapping as files on disk; this library only
//! decides what a lookup returns once that mapping is given as a value.
//! The caller fills a [`Registry`] from whatever backend it uses and
//! hands it to the resolution functions.

use vstd::prelude::*;

use crate::entry::{DesktopEntry, DesktopEntryView};
use crate::error::Error;

verus! {

/// Whether some pair in `reg` is keyed by `name`.
pub open spec fn reg_contains(reg: Seq<(Seq<char>, DesktopEntryView)>, name: Seq<char>) -> bool {
    exists|i: int| 0 <= i < reg.len() && reg[i].0 == name
}

/// The entry of the first pair in `reg` keyed by `name`.
pub open spec fn reg_lookup(
    reg: Seq<(Seq<char>, DesktopEntryView)>,
    name: Seq<char>,
) -> DesktopEntryView
    decreases reg.len(),
{
    if reg.len() == 0 {
        DesktopEntryView { command: Seq::empty(), terminal: false }
    } else if reg[0].0 == name {
        reg[0].1
    } else {
        reg_lookup(reg.drop_first(), name)
    }
}

/// An ordered collection of named launch entries. A name registered
/// twice resolves to its earliest entry.
pub struct Registry {
    entries: Vec<(String, DesktopEntry)>,
}

impl View for Registry {
    type V = Seq<(Seq<char>, DesktopEntryView)>;

    closed spec fn view(&self) -> Seq<(Seq<char>, DesktopEntryView)> {
        Seq::new(self.entries@.len(), |i: int| (self.entries@[i].0@, self.entries@[i].1@))
    }
}

impl Registry {
    /// A registry with no entries: every lookup in it fails.
    pub fn new() -> (r: Registry)
        ensures
            r@ == Seq::<(Seq<char>, DesktopEntryView)>::empty(),
    {
        let r = Registry { entries: Vec::new() };
        proof {
            assert(r@ =~= Seq::<(Seq<char>, DesktopEntryView)>::empty());
        }
        r
    }

    /// Register `entry` under `name`, after every existing entry.
    pub fn register(&mut self, name: String, entry: DesktopEntry)
        ensures
            final(self)@ == old(self)@.push((name@, entry@)),
    {
        let ghost before = self@;
        let ghost pair_view = (name@, entry@);
        self.entries.push((name, entry));
        proof {
            assert(final(self)@ =~= before.push(pair_view));
        }
    }

    /// Resolve `name` to the launch entry registered first under it, or
    /// fail with `NotFound` when no entry carries that name.
    pub fn lookup(&self, name: &str) -> (r: Result<DesktopEntry, Error>)
        ensures
            r is Ok <==> reg_contains(self@, name@),
            (r matches Ok(e) ==> e@ == reg_lookup(self@, name@)),
            (r matches Err(e) ==> e@ == crate::error::ErrorView::NotFound(name@)),
    {
        let n = self.entries.len();
        let mut i: usize = 0;
        while i < n
            invariant
                n == self.entries.len(),
                0 <= i <= n,
                forall|j: int| 0 <= j < i ==> self@[j].0 != name@,
            decreases n - i,
        {
            if crate::text::str_eq(self.entries[i].0.as_str(), name) {
                proof {
                    assert(self@[i as int].0 == name@);
                    assert(reg_contains(self@, name@));
                    lemma_reg_lookup_first(self@, name@, i as int);
                }
                return Ok(self.entries[i].1.clone());
            }
            i += 1;
        }
        proof {
            assert(!reg_contains(self@, name@));
        }
        Err(Error::NotFound(name.to_owned()))
    }
}

/// If `name` first occurs in `reg` at index `i`, the lookup yields the
/// entry stored there.
proof fn lemma_reg_lookup_first(reg: Seq<(Seq<char>, DesktopEntryView)>, name: Seq<char>, i: int)
    requires
        0 <= i < reg.len(),
        reg[i].0 == name,
        forall|j: int| 0 <= j < i ==> reg[j].0 != name,
    ensures
        reg_lookup(reg, name) == reg[i].1,
    decreases i,
{
    if i == 0 {
    } else {
        lemma_reg_lookup_first(reg.drop_first(), name, i - 1);
    }
}

} // verus!
