//! The configuration record the pipeline consumes: an optional manifest
//! location, an optional package selection, and six name-pattern lists.

use vstd::prelude::*;

verus! {

/// All options of one generation run.
pub struct Options {
    pub manifest_path: Option<String>,
    pub packages: Vec<String>,
    pub whitelist_types: Vec<String>,
    pub whitelist_fields: Vec<String>,
    pub whitelist_methods: Vec<String>,
    pub blacklist_types: Vec<String>,
    pub blacklist_fields: Vec<String>,
    pub blacklist_methods: Vec<String>,
}

/// View of [`Options`].
#[verifier::ext_equal]
pub struct OptionsV {
    pub manifest_path: Option<Seq<char>>,
    pub packages: Seq<Seq<char>>,
    pub whitelist_types: Seq<Seq<char>>,
    pub whitelist_fields: Seq<Seq<char>>,
    pub whitelist_methods: Seq<Seq<char>>,
    pub blacklist_types: Seq<Seq<char>>,
    pub blacklist_fields: Seq<Seq<char>>,
    pub blacklist_methods: Seq<Seq<char>>,
}

impl DeepView for Options {
    type V = OptionsV;

    open spec fn deep_view(&self) -> OptionsV {
        OptionsV {
            manifest_path: self.manifest_path.deep_view(),
            packages: self.packages.deep_view(),
            whitelist_types: self.whitelist_types.deep_view(),
            whitelist_fields: self.whitelist_fields.deep_view(),
            whitelist_methods: self.whitelist_methods.deep_view(),
            blacklist_types: self.blacklist_types.deep_view(),
            blacklist_fields: self.blacklist_fields.deep_view(),
            blacklist_methods: self.blacklist_methods.deep_view(),
        }
    }
}

impl Options {
    /// Fresh options: no manifest override, no package selection, and all
    /// six pattern lists empty.
    pub fn new() -> (r: Self)
        ensures
            r.manifest_path is None,
            r.packages@.len() == 0,
            r.whitelist_types@.len() == 0,
            r.whitelist_fields@.len() == 0,
            r.whitelist_methods@.len() == 0,
            r.blacklist_types@.len() == 0,
            r.blacklist_fields@.len() == 0,
            r.blacklist_methods@.len() == 0,
    {
        Options {
            manifest_path: None,
            packages: Vec::new(),
            whitelist_types: Vec::new(),
            whitelist_fields: Vec::new(),
            whitelist_methods: Vec::new(),
            blacklist_types: Vec::new(),
            blacklist_fields: Vec::new(),
            blacklist_methods: Vec::new(),
        }
    }
}

impl Default for Options {
    fn default() -> (r: Self)
        ensures
            r.manifest_path is None,
            r.packages@.len() == 0,
            r.whitelist_types@.len() == 0,
            r.whitelist_fields@.len() == 0,
            r.whitelist_methods@.len() == 0,
            r.blacklist_types@.len() == 0,
            r.blacklist_fields@.len() == 0,
            r.blacklist_methods@.len() == 0,
    {
        Options::new()
    }
}

} // verus!
