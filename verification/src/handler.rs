//! Named handlers and the polymorphic handler union.

use vstd::prelude::*;

use core::str::FromStr;

use crate::entry::{DesktopEntry, DesktopEntryView, ExecMode, ExecRequest, ExecRequestView};
use crate::error::{Error, ErrorView};
use crate::patterns::{RegexHandler, RegexHandlerView};
use crate::registry::{reg_contains, reg_lookup, Registry};

verus! {

/// The image of an entry-resolution result.
pub open spec fn entry_result_view(r: Result<DesktopEntry, Error>) -> Result<
    DesktopEntryView,
    ErrorView,
> {
    match r {
        Ok(e) => Ok(e@),
        Err(e) => Err(e@),
    }
}

/// Common functionality of handlers: resolving the launch entry, and
/// composing it with an execution mode into the request that the
/// external exec collaborator runs.
pub trait Handleable {
    /// The entry this handler resolves to against `registry`.
    spec fn entry_spec(&self, registry: &Registry) -> Result<DesktopEntryView, ErrorView>;

    /// Get the desktop entry associated with the handler.
    fn get_entry(&self, registry: &Registry) -> (r: Result<DesktopEntry, Error>)
        ensures
            entry_result_view(r) == self.entry_spec(registry),
    ;

    /// Open the given paths with the handler: resolve its entry, then
    /// compose the entry in open mode with the arguments, propagating
    /// any resolution error.
    fn open(&self, registry: &Registry, args: Vec<String>) -> (r: Result<ExecRequest, Error>)
        ensures
            (self.entry_spec(registry) matches Ok(e) ==> r matches Ok(req) && req@ == (
            ExecRequestView { entry: e, mode: ExecMode::Open, args: args.deep_view() })),
            (self.entry_spec(registry) matches Err(err) ==> r matches Err(e2) && e2@ == err),
    {
        match self.get_entry(registry) {
            Ok(entry) => Ok(ExecRequest { entry, mode: ExecMode::Open, args }),
            Err(e) => Err(e),
        }
    }
}

/// A handler defined by a desktop entry file, stored as the name it is
/// registered under.
#[derive(Debug)]
pub struct DesktopHandler(String);

impl View for DesktopHandler {
    type V = Seq<char>;

    closed spec fn view(&self) -> Seq<char> {
        self.0@
    }
}

impl DesktopHandler {
    /// Create a DesktopHandler, skipping validity checks: construction
    /// never fails, and a name that is not registered only surfaces
    /// later, as `NotFound` from entry resolution.
    pub fn assume_valid(name: String) -> (r: Self)
        ensures
            r@ == name@,
    {
        DesktopHandler(name)
    }

    /// The application name the handler stands for.
    pub fn name(&self) -> (r: &String)
        ensures
            r@ == self@,
    {
        &self.0
    }

    /// The path of a given desktop entry file, relative to the data
    /// directories that the registry backend searches.
    pub fn get_path(name: &str) -> (r: String)
        ensures
            r@ == "applications/"@ + name@,
    {
        let mut path = "applications/".to_owned();
        path.append(name);
        path
    }

    /// Launch the handler's entry: like `open`, but composing the entry
    /// in launch mode, with no implied target.
    pub fn launch(&self, registry: &Registry, args: Vec<String>) -> (r: Result<ExecRequest, Error>)
        ensures
            (self.entry_spec(registry) matches Ok(e) ==> r matches Ok(req) && req@ == (
            ExecRequestView { entry: e, mode: ExecMode::Launch, args: args.deep_view() })),
            (self.entry_spec(registry) matches Err(err) ==> r matches Err(e2) && e2@ == err),
    {
        match self.get_entry(registry) {
            Ok(entry) => Ok(ExecRequest { entry, mode: ExecMode::Launch, args }),
            Err(e) => Err(e),
        }
    }
}

impl Handleable for DesktopHandler {
    /// A named handler resolves through the registry: the entry first
    /// registered under its name, or `NotFound` when the name is absent.
    open spec fn entry_spec(&self, registry: &Registry) -> Result<DesktopEntryView, ErrorView> {
        if reg_contains(registry@, self@) {
            Ok(reg_lookup(registry@, self@))
        } else {
            Err(ErrorView::NotFound(self@))
        }
    }

    fn get_entry(&self, registry: &Registry) -> (r: Result<DesktopEntry, Error>) {
        registry.lookup(self.0.as_str())
    }
}

impl FromStr for DesktopHandler {
    type Err = Error;

    fn from_str(s: &str) -> Result<Self, Error> {
        Ok(DesktopHandler(s.to_owned()))
    }
}

impl Clone for DesktopHandler {
    /// The copy carries the same name.
    fn clone(&self) -> (r: Self)
        ensures
            r@ == self@,
    {
        DesktopHandler(self.0.clone())
    }
}

impl PartialEq for DesktopHandler {
    /// Named handlers are equal iff their names are equal, byte for byte.
    fn eq(&self, other: &Self) -> (r: bool) {
        crate::text::str_eq(self.0.as_str(), other.0.as_str())
    }
}

impl Eq for DesktopHandler {}

impl vstd::std_specs::cmp::PartialEqSpecImpl for DesktopHandler {
    open spec fn obeys_eq_spec() -> bool {
        true
    }

    open spec fn eq_spec(&self, other: &Self) -> bool {
        self@ == other@
    }
}

impl Handleable for RegexHandler {
    /// A pattern handler synthesizes its entry from its own command and
    /// terminal fields: the registry is never consulted, and resolution
    /// never fails.
    open spec fn entry_spec(&self, registry: &Registry) -> Result<DesktopEntryView, ErrorView> {
        Ok(DesktopEntryView { command: self@.command, terminal: self@.terminal })
    }

    fn get_entry(&self, registry: &Registry) -> (r: Result<DesktopEntry, Error>) {
        Ok(self.launch_entry())
    }
}

/// Law: a pattern handler's entry resolution is a pure function of its
/// own fields. It returns the same entry against every registry, and it
/// always succeeds.
pub proof fn lemma_regex_entry_ignores_registry(h: RegexHandler, r1: Registry, r2: Registry)
    ensures
        h.entry_spec(&r1) == h.entry_spec(&r2),
        h.entry_spec(&r1) == Ok::<DesktopEntryView, ErrorView>(
            DesktopEntryView { command: h@.command, terminal: h@.terminal },
        ),
{
}

/// The mathematical image of a [`Handler`].
pub enum HandlerView {
    DesktopHandler(Seq<char>),
    RegexHandler(RegexHandlerView),
}

/// Represents a program or command that is used to open a file: a
/// closed union over the two handler kinds. Every capability of the
/// union delegates to the active variant.
#[derive(Debug)]
pub enum Handler {
    DesktopHandler(DesktopHandler),
    RegexHandler(RegexHandler),
}

impl View for Handler {
    type V = HandlerView;

    open spec fn view(&self) -> HandlerView {
        match self {
            Handler::DesktopHandler(d) => HandlerView::DesktopHandler(d@),
            Handler::RegexHandler(h) => HandlerView::RegexHandler(h@),
        }
    }
}

impl Handler {
    /// A handler for a registered application name, taken as valid.
    pub fn new(name: &str) -> (r: Self)
        ensures
            r@ == HandlerView::DesktopHandler(name@),
    {
        Handler::DesktopHandler(DesktopHandler::assume_valid(name.to_owned()))
    }
}

impl Handleable for Handler {
    /// The union resolves exactly as its active variant does.
    open spec fn entry_spec(&self, registry: &Registry) -> Result<DesktopEntryView, ErrorView> {
        match self {
            Handler::DesktopHandler(d) => d.entry_spec(registry),
            Handler::RegexHandler(h) => h.entry_spec(registry),
        }
    }

    fn get_entry(&self, registry: &Registry) -> (r: Result<DesktopEntry, Error>) {
        match self {
            Handler::DesktopHandler(d) => d.get_entry(registry),
            Handler::RegexHandler(h) => h.get_entry(registry),
        }
    }
}

impl Clone for Handler {
    /// The copy holds an equal variant.
    fn clone(&self) -> (r: Self)
        ensures
            r@ == self@,
    {
        match self {
            Handler::DesktopHandler(d) => Handler::DesktopHandler(d.clone()),
            Handler::RegexHandler(h) => Handler::RegexHandler(h.clone()),
        }
    }
}

impl PartialEq for Handler {
    /// Structural equality, delegating to the active variant.
    fn eq(&self, other: &Self) -> (r: bool) {
        match (self, other) {
            (Handler::DesktopHandler(a), Handler::DesktopHandler(b)) => a == b,
            (Handler::RegexHandler(a), Handler::RegexHandler(b)) => a == b,
            _ => false,
        }
    }
}

impl Eq for Handler {}

impl vstd::std_specs::cmp::PartialEqSpecImpl for Handler {
    open spec fn obeys_eq_spec() -> bool {
        true
    }

    open spec fn eq_spec(&self, other: &Self) -> bool {
        self@ == other@
    }
}

} // verus!
