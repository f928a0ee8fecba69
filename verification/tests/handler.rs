use handlr::entry::{DesktopEntry, ExecMode};
use handlr::error::Error;
use handlr::handler::{DesktopHandler, Handleable, Handler};
use handlr::patterns::{record_round_trip, PatternSet, RegexApps, RegexHandler, RegexHandlerRecord};
use handlr::registry::Registry;
use url::Url;

fn youtube_handler() -> RegexHandler {
    let regexes: Vec<String> = vec![String::from(r"(https://)?(www\.)?youtu(be\.com|\.be)/*")];
    RegexHandler::new(
        String::from("freetube %u"),
        false,
        PatternSet::new(regexes).unwrap(),
    )
}

#[test]
fn regex_handlers() -> Result<(), Error> {
    let exec: &str = "freetube %u";
    let regexes: Vec<String> = vec![String::from(r"(https://)?(www\.)?youtu(be\.com|\.be)/*")];

    let regex_handler =
        RegexHandler::new(String::from(exec), false, PatternSet::new(regexes)?);

    let regex_apps = RegexApps::new(vec![regex_handler.clone()]);

    let registry = Registry::new();

    assert_eq!(
        regex_apps
            .get_handler(&Url::parse("https://youtu.be/dQw4w9WgXcQ").unwrap().to_string())?
            .get_entry(&registry)?,
        DesktopEntry {
            command: exec.to_string(),
            terminal: false,
        }
    );

    assert!(regex_apps
        .get_handler(&Url::parse("https://en.wikipedia.org").unwrap().to_string())
        .is_err());

    Ok(())
}

#[test]
fn pattern_set_equality_follows_source_patterns() {
    let a = PatternSet::new(vec![String::from("foo.*"), String::from("bar")]).unwrap();
    let b = PatternSet::new(vec![String::from("foo.*"), String::from("bar")]).unwrap();
    let c = PatternSet::new(vec![String::from("bar"), String::from("foo.*")]).unwrap();
    let d = PatternSet::new(vec![String::from("foo.*")]).unwrap();
    assert_eq!(a, b);
    assert_ne!(a, c);
    assert_ne!(a, d);
    assert_eq!(a.patterns(), b.patterns());
}

#[test]
fn invalid_pattern_fails_construction() {
    let r = PatternSet::new(vec![String::from("(")]);
    match r {
        Err(Error::InvalidPattern(_)) => {}
        _ => panic!("an unclosed group must be rejected as InvalidPattern"),
    }
}

#[test]
fn first_match_wins_when_two_handlers_match() {
    let h1 = RegexHandler::new(
        String::from("first %u"),
        false,
        PatternSet::new(vec![String::from("youtu")]).unwrap(),
    );
    let h2 = RegexHandler::new(
        String::from("second %u"),
        true,
        PatternSet::new(vec![String::from("youtu\\.be")]).unwrap(),
    );
    let table = RegexApps::new(vec![h1.clone(), h2.clone()]);
    let picked = table.get_handler("https://youtu.be/abc").unwrap();
    assert_eq!(picked, h1);
    assert_ne!(picked, h2);
}

#[test]
fn not_found_iff_no_pattern_matches() {
    let table = RegexApps::new(vec![youtube_handler()]);
    match table.get_handler("https://en.wikipedia.org/") {
        Err(Error::NotFound(id)) => assert_eq!(id, "https://en.wikipedia.org/"),
        _ => panic!("a candidate no pattern matches must fail with NotFound"),
    }
    assert!(table.get_handler("https://www.youtube.com/watch").is_ok());
}

#[test]
fn empty_table_never_resolves() {
    let table = RegexApps::empty();
    match table.get_handler("anything at all") {
        Err(Error::NotFound(id)) => assert_eq!(id, "anything at all"),
        _ => panic!("an empty table must fail with NotFound"),
    }
    let table2 = RegexApps::default();
    assert!(table2.get_handler("").is_err());
}

#[test]
fn pattern_entry_needs_no_registry() {
    let h = youtube_handler();
    let entry = h.launch_entry();
    assert_eq!(entry.command, "freetube %u");
    assert!(!entry.terminal);
    // the trait route gives the same entry against any registry
    let registry = Registry::new();
    assert_eq!(h.get_entry(&registry).unwrap(), entry);
}

#[test]
fn record_round_trip_preserves_handler() {
    let h = RegexHandler::new(
        String::from("mpv %u"),
        true,
        PatternSet::new(vec![String::from("\\.mkv$"), String::from("\\.mp4$")]).unwrap(),
    );
    let rec = h.to_record();
    assert_eq!(rec.command, "mpv %u");
    assert_eq!(rec.terminal, Some(true));
    assert_eq!(rec.regexes, vec![String::from("\\.mkv$"), String::from("\\.mp4$")]);
    let again = RegexHandler::from_record(rec).unwrap();
    assert_eq!(again, h);
    let alias = record_round_trip(&h);
    assert_eq!(alias, h);
}

#[test]
fn missing_terminal_flag_defaults_to_false() {
    let rec = RegexHandlerRecord {
        command: String::from("less %f"),
        terminal: None,
        regexes: vec![String::from("\\.log$")],
    };
    let h = RegexHandler::from_record(rec).unwrap();
    assert!(!h.launch_entry().terminal);
    assert_eq!(h.to_record().terminal, Some(false));
}

#[test]
fn record_with_bad_pattern_is_rejected() {
    let rec = RegexHandlerRecord {
        command: String::from("less %f"),
        terminal: Some(false),
        regexes: vec![String::from("[")],
    };
    match RegexHandler::from_record(rec) {
        Err(Error::InvalidPattern(_)) => {}
        _ => panic!("a record with an invalid pattern must be rejected"),
    }
}

#[test]
fn cloned_handler_still_matches() {
    let h = youtube_handler();
    let copy = h.clone();
    assert!(copy.is_match("https://youtu.be/abc"));
    assert!(!copy.is_match("https://example.org"));
    assert_eq!(copy, h);
}

#[test]
fn assume_valid_defers_failure_to_resolution() {
    // construction never fails, even for a name the registry lacks
    let handler = DesktopHandler::assume_valid(String::from("ghost.desktop"));
    assert_eq!(handler.name(), "ghost.desktop");
    let registry = Registry::new();
    match handler.get_entry(&registry) {
        Err(Error::NotFound(id)) => assert_eq!(id, "ghost.desktop"),
        _ => panic!("an unregistered name must fail with NotFound"),
    }
}

#[test]
fn registry_lookup_returns_first_registration() {
    let mut registry = Registry::new();
    registry.register(
        String::from("browser.desktop"),
        DesktopEntry { command: String::from("firefox %u"), terminal: false },
    );
    registry.register(
        String::from("browser.desktop"),
        DesktopEntry { command: String::from("chromium %u"), terminal: false },
    );
    let entry = registry.lookup("browser.desktop").unwrap();
    assert_eq!(entry.command, "firefox %u");
    assert!(registry.lookup("editor.desktop").is_err());
}

#[test]
fn handler_union_delegates_to_variant() {
    let mut registry = Registry::new();
    registry.register(
        String::from("pager.desktop"),
        DesktopEntry { command: String::from("less %f"), terminal: true },
    );

    let named = Handler::new("pager.desktop");
    assert_eq!(
        named.get_entry(&registry).unwrap(),
        DesktopEntry { command: String::from("less %f"), terminal: true }
    );

    let ruled = Handler::RegexHandler(youtube_handler());
    assert_eq!(
        ruled.get_entry(&registry).unwrap(),
        DesktopEntry { command: String::from("freetube %u"), terminal: false }
    );
}

#[test]
fn open_composes_entry_with_open_mode() {
    let registry = Registry::new();
    let h = Handler::RegexHandler(youtube_handler());
    let req = h
        .open(&registry, vec![String::from("https://youtu.be/abc")])
        .unwrap();
    assert_eq!(req.mode, ExecMode::Open);
    assert_eq!(req.entry.command, "freetube %u");
    assert_eq!(req.args, vec![String::from("https://youtu.be/abc")]);
}

#[test]
fn open_propagates_resolution_errors() {
    let registry = Registry::new();
    let h = Handler::new("ghost.desktop");
    match h.open(&registry, vec![]) {
        Err(Error::NotFound(id)) => assert_eq!(id, "ghost.desktop"),
        _ => panic!("open must propagate the resolution error"),
    }
}

#[test]
fn launch_composes_entry_with_launch_mode() {
    let mut registry = Registry::new();
    registry.register(
        String::from("term.desktop"),
        DesktopEntry { command: String::from("alacritty"), terminal: false },
    );
    let h = DesktopHandler::assume_valid(String::from("term.desktop"));
    let req = h.launch(&registry, vec![]).unwrap();
    assert_eq!(req.mode, ExecMode::Launch);
    assert_eq!(req.entry.command, "alacritty");
    assert!(req.args.is_empty());
}

#[test]
fn get_path_prefixes_data_dir() {
    assert_eq!(
        DesktopHandler::get_path("firefox.desktop"),
        "applications/firefox.desktop"
    );
}

#[test]
fn handler_equality_is_structural() {
    let a = Handler::new("a.desktop");
    let b = Handler::new("a.desktop");
    let c = Handler::new("c.desktop");
    let r = Handler::RegexHandler(youtube_handler());
    assert_eq!(a, b);
    assert_ne!(a, c);
    assert_ne!(a, r);
    assert_eq!(r, r.clone());
}

#[test]
fn empty_pattern_set_never_matches() {
    let set = PatternSet::new(Vec::new()).unwrap();
    assert!(!set.is_match(""));
    assert!(!set.is_match("anything"));
}

#[test]
fn error_message_carries_identifier() {
    let e = Error::NotFound(String::from("x.desktop"));
    assert_eq!(e.message(), "x.desktop");
}
