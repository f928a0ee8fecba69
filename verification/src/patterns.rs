//! Pattern sets, pattern handlers, and the first-match routing table.

use vstd::prelude::*;

use crate::entry::{DesktopEntry, DesktopEntryView};
use crate::error::{Error, ErrorView};

verus! {

#[verifier::external_type_specification]
#[verifier::external_body]
pub struct ExRegexSet(regex::RegexSet);

/// The source patterns a compiled `regex::RegexSet` was built from.
pub uninterp spec fn compiled_patterns(set: regex::RegexSet) -> Seq<Seq<char>>;

/// Whether the regex crate accepts this sequence of pattern strings.
pub uninterp spec fn patterns_compile(patterns: Seq<Seq<char>>) -> bool;

/// Whether at least one of `patterns` matches `candidate`, under the
/// regex crate's unanchored search semantics.
pub uninterp spec fn set_matches(patterns: Seq<Seq<char>>, candidate: Seq<char>) -> bool;

/// Relies on regex::RegexSet::new: the compiled set is built from
/// exactly the given patterns, and construction fails iff the regex
/// crate rejects them. The crate's error is carried over as its
/// diagnostic text, under `InvalidPattern`.
#[verifier::external_body]
fn regex_set_new(patterns: &Vec<String>) -> (r: Result<regex::RegexSet, Error>)
    ensures
        r is Ok <==> patterns_compile(patterns.deep_view()),
        (r matches Ok(set) ==> compiled_patterns(set) == patterns.deep_view()),
        (r matches Err(e) ==> e is InvalidPattern),
{
    match regex::RegexSet::new(patterns) {
        Ok(set) => Ok(set),
        Err(e) => Err(Error::InvalidPattern(e.to_string())),
    }
}

/// Relies on regex::RegexSet::is_match: true iff at least one regex in
/// the set matches the haystack; an empty set matches nothing.
#[verifier::external_body]
fn regex_set_is_match(set: &regex::RegexSet, haystack: &str) -> (r: bool)
    ensures
        r == set_matches(compiled_patterns(*set), haystack@),
        compiled_patterns(*set).len() == 0 ==> !r,
{
    set.is_match(haystack)
}

/// Relies on regex::RegexSet's derived Clone: the copy is built from
/// the same patterns.
#[verifier::external_body]
fn regex_set_clone(set: &regex::RegexSet) -> (r: regex::RegexSet)
    ensures
        compiled_patterns(r) == compiled_patterns(*set),
{
    set.clone()
}

/// An immutable collection of compiled text patterns, remembering the
/// source strings it was compiled from.
///
/// Identity is defined over the ordered source-pattern strings: the
/// compiled form is neither comparable nor hashable, so equality and
/// the view ignore it.
#[derive(Debug)]
pub struct PatternSet {
    patterns: Vec<String>,
    set: regex::RegexSet,
}

impl View for PatternSet {
    type V = Seq<Seq<char>>;

    closed spec fn view(&self) -> Seq<Seq<char>> {
        self.patterns.deep_view()
    }
}

impl PatternSet {
    #[verifier::type_invariant]
    spec fn wf(self) -> bool {
        &&& compiled_patterns(self.set) == self.patterns.deep_view()
        &&& patterns_compile(self.patterns.deep_view())
    }

    /// Compile a pattern set from source strings. Fails with
    /// `InvalidPattern` iff the regex crate rejects the patterns.
    pub fn new(patterns: Vec<String>) -> (r: Result<PatternSet, Error>)
        ensures
            r is Ok <==> patterns_compile(patterns.deep_view()),
            (r matches Ok(s) ==> s@ == patterns.deep_view()),
            (r matches Err(e) ==> e is InvalidPattern),
    {
        match regex_set_new(&patterns) {
            Ok(set) => Ok(PatternSet { patterns, set }),
            Err(e) => Err(e),
        }
    }

    /// True iff `candidate` satisfies at least one pattern in the set;
    /// an empty set never matches.
    pub fn is_match(&self, candidate: &str) -> (r: bool)
        ensures
            r == set_matches(self@, candidate@),
            self@.len() == 0 ==> !r,
    {
        proof {
            use_type_invariant(&*self);
        }
        regex_set_is_match(&self.set, candidate)
    }

    /// The ordered source-pattern strings the set was compiled from.
    pub fn patterns(&self) -> (r: &Vec<String>)
        ensures
            r.deep_view() == self@,
    {
        &self.patterns
    }
}

impl Clone for PatternSet {
    /// The copy holds the same ordered source patterns.
    fn clone(&self) -> (r: Self)
        ensures
            r@ == self@,
    {
        proof {
            use_type_invariant(&*self);
        }
        let patterns = crate::text::clone_string_vec(&self.patterns);
        PatternSet { patterns, set: regex_set_clone(&self.set) }
    }
}

impl PartialEq for PatternSet {
    /// Pattern sets are equal iff their ordered source-pattern
    /// sequences are equal, whatever their compiled forms.
    fn eq(&self, other: &Self) -> (r: bool) {
        let n = self.patterns.len();
        if n != other.patterns.len() {
            proof {
                assert(self@ != other@) by {
                    assert(self@.len() != other@.len());
                }
            }
            return false;
        }
        let mut i: usize = 0;
        while i < n
            invariant
                n == self.patterns.len() == other.patterns.len(),
                0 <= i <= n,
                forall|j: int| 0 <= j < i ==> self@[j] == other@[j],
            decreases n - i,
        {
            if !crate::text::str_eq(self.patterns[i].as_str(), other.patterns[i].as_str()) {
                proof {
                    assert(self@[i as int] == self.patterns@[i as int].deep_view());
                    assert(other@[i as int] == other.patterns@[i as int].deep_view());
                    assert(self@[i as int] != other@[i as int]);
                }
                return false;
            }
            proof {
                assert(self@[i as int] == self.patterns@[i as int].deep_view());
                assert(other@[i as int] == other.patterns@[i as int].deep_view());
            }
            i += 1;
        }
        proof {
            assert(self@ =~= other@);
        }
        true
    }
}

impl Eq for PatternSet {}

impl vstd::std_specs::cmp::PartialEqSpecImpl for PatternSet {
    open spec fn obeys_eq_spec() -> bool {
        true
    }

    open spec fn eq_spec(&self, other: &Self) -> bool {
        self@ == other@
    }
}

/// Law: two pattern sets are equal iff their ordered source-pattern
/// sequences are equal, regardless of their compiled representations.
pub proof fn lemma_pattern_set_eq_is_source_eq(a: &PatternSet, b: &PatternSet)
    ensures
        vstd::std_specs::cmp::PartialEqSpec::eq_spec(a, b) <==> a@ == b@,
{
}

/// The mathematical image of a [`RegexHandler`].
pub struct RegexHandlerView {
    pub command: Seq<char>,
    pub terminal: bool,
    pub patterns: Seq<Seq<char>>,
}

/// A single pattern rule: a command template, a flag saying whether it
/// runs in a terminal, and the pattern set that routes candidates to it.
#[derive(Debug)]
pub struct RegexHandler {
    command: String,
    terminal: bool,
    regexes: PatternSet,
}

impl View for RegexHandler {
    type V = RegexHandlerView;

    closed spec fn view(&self) -> RegexHandlerView {
        RegexHandlerView {
            command: self.command@,
            terminal: self.terminal,
            patterns: self.regexes@,
        }
    }
}

impl DeepView for RegexHandler {
    type V = RegexHandlerView;

    open spec fn deep_view(&self) -> RegexHandlerView {
        self.view()
    }
}

impl RegexHandler {
    /// A handler from its parts.
    pub fn new(command: String, terminal: bool, regexes: PatternSet) -> (r: RegexHandler)
        ensures
            r@ == (RegexHandlerView { command: command@, terminal, patterns: regexes@ }),
    {
        RegexHandler { command, terminal, regexes }
    }

    /// Test if a given path matches the handler's patterns.
    pub fn is_match(&self, path: &str) -> (r: bool)
        ensures
            r == set_matches(self@.patterns, path@),
    {
        self.regexes.is_match(path)
    }

    /// The launch entry synthesized from this handler's own command and
    /// terminal fields, with no lookup anywhere.
    pub fn launch_entry(&self) -> (r: DesktopEntry)
        ensures
            r@ == (DesktopEntryView { command: self@.command, terminal: self@.terminal }),
    {
        DesktopEntry::fake_entry(self.command.as_str(), self.terminal)
    }

    /// Build a handler from its serialized record; a missing terminal
    /// flag means false. Fails iff the patterns do not compile.
    pub fn from_record(rec: RegexHandlerRecord) -> (r: Result<RegexHandler, Error>)
        ensures
            r is Ok <==> patterns_compile(rec.regexes.deep_view()),
            (r matches Ok(h) ==> h@ == record_view(rec)),
            (r matches Err(e) ==> e is InvalidPattern),
    {
        let RegexHandlerRecord { command, terminal, regexes } = rec;
        match PatternSet::new(regexes) {
            Ok(set) => {
                let t = match terminal {
                    Some(t) => t,
                    None => false,
                };
                Ok(RegexHandler { command, terminal: t, regexes: set })
            },
            Err(e) => Err(e),
        }
    }

    /// The serialized record of this handler, with the terminal flag
    /// written out.
    pub fn to_record(&self) -> (r: RegexHandlerRecord)
        ensures
            record_view(r) == self@,
            r.terminal == Some(self@.terminal),
    {
        RegexHandlerRecord {
            command: self.command.clone(),
            terminal: Some(self.terminal),
            regexes: crate::text::clone_string_vec(self.regexes.patterns()),
        }
    }
}

impl Clone for RegexHandler {
    /// The copy describes the same rule.
    fn clone(&self) -> (r: Self)
        ensures
            r@ == self@,
    {
        RegexHandler {
            command: self.command.clone(),
            terminal: self.terminal,
            regexes: self.regexes.clone(),
        }
    }
}

impl PartialEq for RegexHandler {
    /// Handlers are equal iff their commands, terminal flags, and
    /// ordered source patterns are equal.
    fn eq(&self, other: &Self) -> (r: bool) {
        crate::text::str_eq(self.command.as_str(), other.command.as_str())
            && self.terminal == other.terminal && self.regexes == other.regexes
    }
}

impl Eq for RegexHandler {}

impl vstd::std_specs::cmp::PartialEqSpecImpl for RegexHandler {
    open spec fn obeys_eq_spec() -> bool {
        true
    }

    open spec fn eq_spec(&self, other: &Self) -> bool {
        self@ == other@
    }
}

/// The record shape a pattern handler is read from and written to in
/// configuration: a command template, an optional terminal flag (absent
/// means false), and the ordered source patterns.
#[derive(Debug)]
pub struct RegexHandlerRecord {
    pub command: String,
    pub terminal: Option<bool>,
    pub regexes: Vec<String>,
}

/// The handler a record describes.
pub open spec fn record_view(rec: RegexHandlerRecord) -> RegexHandlerView {
    RegexHandlerView {
        command: rec.command@,
        terminal: match rec.terminal {
            Some(t) => t,
            None => false,
        },
        patterns: rec.regexes.deep_view(),
    }
}

/// Law: converting a pattern handler to its record and back yields a
/// handler with the same command, terminal flag, and source patterns.
pub fn record_round_trip(h: &RegexHandler) -> (r: RegexHandler)
    ensures
        r@ == h@,
{
    proof {
        use_type_invariant(&h.regexes);
    }
    let rec = h.to_record();
    match RegexHandler::from_record(rec) {
        Ok(again) => again,
        Err(_) => unreached(),
    }
}

/// Which handler resolution must return for `candidate`: the one at the
/// first index of `table` whose pattern set matches.
pub open spec fn resolves_to(
    table: Seq<RegexHandlerView>,
    candidate: Seq<char>,
    h: RegexHandlerView,
) -> bool {
    exists|i: int|
        {
            &&& 0 <= i < table.len()
            &&& h == table[i]
            &&& set_matches(table[i].patterns, candidate)
            &&& forall|j: int| 0 <= j < i ==> !set_matches(table[j].patterns, candidate)
        }
}

/// Law: resolution is order-deterministic. Any two handlers that stand
/// at the first matching position of the same table for the same
/// candidate are the same handler.
pub proof fn lemma_resolution_deterministic(
    table: Seq<RegexHandlerView>,
    candidate: Seq<char>,
    h1: RegexHandlerView,
    h2: RegexHandlerView,
)
    requires
        resolves_to(table, candidate, h1),
        resolves_to(table, candidate, h2),
    ensures
        h1 == h2,
{
    let i1 = choose|i: int|
        {
            &&& 0 <= i < table.len()
            &&& h1 == table[i]
            &&& set_matches(table[i].patterns, candidate)
            &&& forall|j: int| 0 <= j < i ==> !set_matches(table[j].patterns, candidate)
        };
    let i2 = choose|i: int|
        {
            &&& 0 <= i < table.len()
            &&& h2 == table[i]
            &&& set_matches(table[i].patterns, candidate)
            &&& forall|j: int| 0 <= j < i ==> !set_matches(table[j].patterns, candidate)
        };
    if i1 < i2 {
        assert(!set_matches(table[i1].patterns, candidate));
    } else if i2 < i1 {
        assert(!set_matches(table[i2].patterns, candidate));
    }
}

/// The ordered table of every configured pattern handler. Order is
/// significant: the earlier of two matching handlers always wins.
#[derive(Debug)]
pub struct RegexApps {
    apps: Vec<RegexHandler>,
}

impl View for RegexApps {
    type V = Seq<RegexHandlerView>;

    closed spec fn view(&self) -> Seq<RegexHandlerView> {
        self.apps.deep_view()
    }
}

impl RegexApps {
    /// A table of the given handlers, resolved in the given order.
    pub fn new(apps: Vec<RegexHandler>) -> (r: RegexApps)
        ensures
            r@ == apps.deep_view(),
    {
        RegexApps { apps }
    }

    /// A table with no handlers: every resolution in it fails.
    pub fn empty() -> (r: RegexApps)
        ensures
            r@ == Seq::<RegexHandlerView>::empty(),
    {
        let r = RegexApps { apps: Vec::new() };
        proof {
            assert(r@ =~= Seq::<RegexHandlerView>::empty());
        }
        r
    }

    /// Get the first handler in table order whose pattern set matches
    /// `path`; fails with `NotFound(path)` iff no handler matches.
    pub fn get_handler(&self, path: &str) -> (r: Result<RegexHandler, Error>)
        ensures
            r is Ok <==> (exists|i: int|
                0 <= i < self@.len() && set_matches(self@[i].patterns, path@)),
            (r matches Ok(h) ==> resolves_to(self@, path@, h@)),
            (r matches Err(e) ==> e@ == ErrorView::NotFound(path@)),
    {
        let n = self.apps.len();
        let mut i: usize = 0;
        while i < n
            invariant
                n == self.apps.len(),
                0 <= i <= n,
                forall|j: int| 0 <= j < i ==> !set_matches(self@[j].patterns, path@),
            decreases n - i,
        {
            proof {
                assert(self@[i as int] == self.apps@[i as int].deep_view());
            }
            if self.apps[i].is_match(path) {
                let h = self.apps[i].clone();
                proof {
                    assert(resolves_to(self@, path@, h@));
                }
                return Ok(h);
            }
            i += 1;
        }
        Err(Error::NotFound(path.to_owned()))
    }
}

impl Default for RegexApps {
    /// The default table is empty.
    fn default() -> (r: Self)
        ensures
            r@ == Seq::<RegexHandlerView>::empty(),
    {
        RegexApps::empty()
    }
}

} // verus!
