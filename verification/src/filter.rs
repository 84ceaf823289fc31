//! Name filtering: an optional whitelist and an optional blacklist of
//! regular-expression patterns per category.
//!
//! A name passes a filter when it matches some whitelist pattern — a
//! whitelist match always wins, even against a blacklist match — or,
//! failing that, when there is no blacklist or the blacklist does not
//! match. The two lists are not an allow-then-deny chain.

use vstd::prelude::*;

verus! {

/// Whether `pattern` is a valid regular expression, as `regex::Regex::new`
/// decides it.
pub uninterp spec fn regex_valid(pattern: Seq<char>) -> bool;

/// Whether the regular expression `pattern` matches anywhere in `text`, as
/// `regex::Regex::is_match` decides it.
pub uninterp spec fn regex_match(pattern: Seq<char>, text: Seq<char>) -> bool;

/// Relies on `regex::Regex::new`: compilation succeeds or fails as a pure
/// function of the pattern string (the default size limits are fixed).
#[verifier::external_body]
pub(crate) fn check_pattern(pattern: &str) -> (r: bool)
    ensures
        r == regex_valid(pattern@),
{
    regex::Regex::new(pattern).is_ok()
}

/// Relies on `regex::Regex::is_match`: whether a pattern matches a text is a
/// pure function of the two strings. The compiled form is opaque to this
/// crate, so this wrapper compiles (`regex::Regex::new`) and matches in one
/// step; for an invalid pattern — excluded by the precondition — it answers
/// false rather than panicking.
#[verifier::external_body]
fn pattern_matches(pattern: &str, text: &str) -> (r: bool)
    requires
        regex_valid(pattern@),
    ensures
        r == regex_match(pattern@, text@),
{
    match regex::Regex::new(pattern) {
        Ok(re) => re.is_match(text),
        Err(_) => false,
    }
}

/// All patterns of a list are valid regular expressions.
pub open spec fn list_valid(pats: Seq<Seq<char>>) -> bool {
    forall|i: int| 0 <= i < pats.len() ==> regex_valid(pats[i])
}

/// An optional pattern list is valid when it is absent or all its patterns
/// are valid.
pub open spec fn opt_list_valid(pats: Option<Seq<Seq<char>>>) -> bool {
    match pats {
        Some(ps) => list_valid(ps),
        None => true,
    }
}

/// Some pattern of the list matches the name.
pub open spec fn list_match(pats: Seq<Seq<char>>, name: Seq<char>) -> bool {
    exists|i: int| 0 <= i < pats.len() && regex_match(pats[i], name)
}

/// View of [`PatternFilter`].
#[verifier::ext_equal]
pub struct PatternFilterV {
    pub whitelist: Option<Seq<Seq<char>>>,
    pub blacklist: Option<Seq<Seq<char>>>,
}

/// Whether a filter lets a name through: a whitelist match, or — failing
/// that — no blacklist match (absence of a blacklist lets everything
/// through).
pub open spec fn accepted(f: PatternFilterV, name: Seq<char>) -> bool {
    (match f.whitelist {
        Some(w) => list_match(w, name),
        None => false,
    }) || (match f.blacklist {
        Some(b) => !list_match(b, name),
        None => true,
    })
}

/// The per-category inclusion rule: an optional whitelist and an optional
/// blacklist of patterns, built once from the configuration.
pub struct PatternFilter {
    pub whitelist: Option<Vec<String>>,
    pub blacklist: Option<Vec<String>>,
}

impl DeepView for PatternFilter {
    type V = PatternFilterV;

    open spec fn deep_view(&self) -> PatternFilterV {
        PatternFilterV {
            whitelist: self.whitelist.deep_view(),
            blacklist: self.blacklist.deep_view(),
        }
    }
}

impl PatternFilter {
    /// Both lists hold only valid patterns.
    pub open spec fn wf(&self) -> bool {
        opt_list_valid(self.deep_view().whitelist) && opt_list_valid(self.deep_view().blacklist)
    }
}

/// Whether some pattern of `pats` matches `name`.
fn any_match(pats: &Vec<String>, name: &str) -> (r: bool)
    requires
        list_valid(pats.deep_view()),
    ensures
        r == list_match(pats.deep_view(), name@),
{
    let mut i: usize = 0;
    while i < pats.len()
        invariant
            0 <= i <= pats.len(),
            list_valid(pats.deep_view()),
            forall|j: int| 0 <= j < i ==> !regex_match(pats.deep_view()[j], name@),
        decreases pats.len() - i,
    {
        assert(pats.deep_view()[i as int] == pats@[i as int]@);
        if pattern_matches(pats[i].as_str(), name) {
            assert(regex_match(pats.deep_view()[i as int], name@));
            return true;
        }
        i = i + 1;
    }
    false
}

impl PatternFilter {
    /// Whether this filter lets `name` through.
    pub fn accepts(&self, name: &str) -> (r: bool)
        requires
            self.wf(),
        ensures
            r == accepted(self.deep_view(), name@),
    {
        let white = match &self.whitelist {
            Some(w) => any_match(w, name),
            None => false,
        };
        if white {
            return true;
        }
        match &self.blacklist {
            Some(b) => !any_match(b, name),
            None => true,
        }
    }
}

/// Filter composition law: a whitelist match lets a name through whatever
/// the blacklist says; with neither list configured every name passes; with
/// no whitelist, a blacklist match excludes the name.
pub proof fn lemma_filter_composition(f: PatternFilterV, name: Seq<char>)
    ensures
        (f.whitelist matches Some(w) && list_match(w, name)) ==> accepted(f, name),
        f.whitelist is None && f.blacklist is None ==> accepted(f, name),
        f.whitelist is None && (f.blacklist matches Some(b) && list_match(b, name)) ==> !accepted(
            f,
            name,
        ),
{
}

} // verus!
