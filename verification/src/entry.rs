//! Launch entries and the execution requests built from them.

use vstd::prelude::*;

verus! {

/// The mathematical image of a [`DesktopEntry`].
pub struct DesktopEntryView {
    pub command: Seq<char>,
    pub terminal: bool,
}

/// How a program is run: an unexpanded command template and whether it
/// needs a terminal.
///
/// A pattern handler synthesizes one of these in memory from its own
/// fields; a named handler obtains one from the registry. Expanding the
/// template and spawning the process happen outside this library.
#[derive(Debug, PartialEq, Eq)]
pub struct DesktopEntry {
    pub command: String,
    pub terminal: bool,
}

impl View for DesktopEntry {
    type V = DesktopEntryView;

    open spec fn view(&self) -> DesktopEntryView {
        DesktopEntryView { command: self.command@, terminal: self.terminal }
    }
}

impl DesktopEntry {
    /// Synthesize an entry directly from a command template and a
    /// terminal flag, with no lookup anywhere.
    pub fn fake_entry(command: &str, terminal: bool) -> (r: DesktopEntry)
        ensures
            r@ == (DesktopEntryView { command: command@, terminal }),
    {
        DesktopEntry { command: command.to_owned(), terminal }
    }
}

impl Clone for DesktopEntry {
    fn clone(&self) -> (r: Self)
        ensures
            r@ == self@,
    {
        DesktopEntry { command: self.command.clone(), terminal: self.terminal }
    }
}

impl Default for DesktopEntry {
    fn default() -> (r: Self)
        ensures
            r@ == (DesktopEntryView { command: Seq::<char>::empty(), terminal: false }),
    {
        DesktopEntry { command: String::new(), terminal: false }
    }
}

/// The intent an entry is executed with: opening a specific target, or
/// launching the program with no implied target.
#[derive(Debug, Clone, Copy, PartialEq, Eq, Structural)]
pub enum ExecMode {
    Open,
    Launch,
}

/// The mathematical image of an [`ExecRequest`].
pub struct ExecRequestView {
    pub entry: DesktopEntryView,
    pub mode: ExecMode,
    pub args: Seq<Seq<char>>,
}

/// Everything the external exec collaborator needs to run a resolved
/// handler: the entry, the execution mode, and the arguments.
#[derive(Debug)]
pub struct ExecRequest {
    pub entry: DesktopEntry,
    pub mode: ExecMode,
    pub args: Vec<String>,
}

impl View for ExecRequest {
    type V = ExecRequestView;

    open spec fn view(&self) -> ExecRequestView {
        ExecRequestView { entry: self.entry@, mode: self.mode, args: self.args.deep_view() }
    }
}

} // verus!
