use cpython_gen::errors::Error;
use cpython_gen::extractor::Extractor;
use cpython_gen::filter::PatternFilter;
use cpython_gen::options::Options;

fn strings(pats: &[&str]) -> Vec<String> {
    pats.iter().map(|p| p.to_string()).collect()
}

#[test]
fn whitelist_match_overrides_blacklist_match() {
    let f = PatternFilter {
        whitelist: Some(strings(&["^Py.*"])),
        blacklist: Some(strings(&["^Py.*"])),
    };
    assert!(f.accepts("PyFoo"));
}

#[test]
fn no_lists_lets_everything_through() {
    let f = PatternFilter { whitelist: None, blacklist: None };
    assert!(f.accepts("anything"));
    assert!(f.accepts(""));
}

#[test]
fn blacklist_alone_excludes_matches() {
    let f = PatternFilter { whitelist: None, blacklist: Some(strings(&["^_.*"])) };
    assert!(!f.accepts("_internal"));
    assert!(f.accepts("value"));
}

#[test]
fn without_blacklist_even_non_whitelist_names_pass() {
    // The two lists are not an allow-then-deny chain: with no blacklist
    // configured the right-hand disjunct holds for every name, whatever
    // the whitelist says.
    let f = PatternFilter { whitelist: Some(strings(&["^Py.*"])), blacklist: None };
    assert!(f.accepts("PyFoo"));
    assert!(f.accepts("Other"));
}

#[test]
fn whitelist_with_catch_all_blacklist_selects_exactly_matches() {
    let f = PatternFilter {
        whitelist: Some(strings(&["^Py.*", "^Rs.*"])),
        blacklist: Some(strings(&[".*"])),
    };
    assert!(f.accepts("RsBar"));
    assert!(f.accepts("PyFoo"));
    assert!(!f.accepts("Neither"));
}

#[test]
fn invalid_pattern_is_a_config_error() {
    let mut options = Options::new();
    options.whitelist_types.push("(".to_string());
    match Extractor::new(&options) {
        Err(Error::Config) => {}
        _ => panic!("an invalid pattern must fail configuration"),
    }
}

#[test]
fn invalid_blacklist_pattern_is_a_config_error() {
    let mut options = Options::new();
    options.blacklist_methods.push("[".to_string());
    match Extractor::new(&options) {
        Err(Error::Config) => {}
        _ => panic!("an invalid pattern must fail configuration"),
    }
}

#[test]
fn valid_patterns_build_an_extractor() {
    let mut options = Options::new();
    options.whitelist_types.push("^Py.*".to_string());
    options.blacklist_fields.push("^_.*".to_string());
    assert!(Extractor::new(&options).is_ok());
}
