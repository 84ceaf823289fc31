//! The extractor: turns a workspace model plus six pattern lists into the
//! classes, properties and methods that binding generation consumes.
//!
//! Selection is a pure function of the declarations and the filters:
//! declaration order never changes which names qualify, and the output
//! keeps source order.

use vstd::prelude::*;

use crate::ast::{Attribute, AttributeV, Field, FieldV, ImplMemberV, Item, ItemKind, ItemKindV,
    ItemV, MemberKindV, MetaItem, MetaItemV, VariantData, VariantDataV};
use crate::errors::Error;
use crate::filter::{accepted, list_valid, PatternFilter, PatternFilterV};
use crate::options::{Options, OptionsV};
use crate::workspace::{Package, PackageV, Target, TargetKind, TargetKindV, TargetV, Workspace,
    WorkspaceV};

verus! {

/// A struct field exposed to binding generation: its name and its declared
/// type signature, written as source text.
pub struct Property {
    pub name: String,
    pub ty: String,
}

/// View of [`Property`].
#[verifier::ext_equal]
pub struct PropertyV {
    pub name: Seq<char>,
    pub ty: Seq<char>,
}

impl DeepView for Property {
    type V = PropertyV;

    open spec fn deep_view(&self) -> PropertyV {
        PropertyV { name: self.name@, ty: self.ty@ }
    }
}

/// A candidate bound function of an annotated class. Extraction produces
/// these records; code generation does not consume them yet.
pub struct Method {
    pub name: String,
}

/// View of [`Method`].
#[verifier::ext_equal]
pub struct MethodV {
    pub name: Seq<char>,
}

impl DeepView for Method {
    type V = MethodV;

    open spec fn deep_view(&self) -> MethodV {
        MethodV { name: self.name@ }
    }
}

/// The extractor: the configuration a run was started with, the library
/// kind it selects targets by, the marker word, and the three per-category
/// filters.
pub struct Extractor {
    pub manifest_path: Option<String>,
    pub packages: Vec<String>,
    pub lib_kind: String,
    pub derive_attr: String,
    pub types: PatternFilter,
    pub fields: PatternFilter,
    pub methods: PatternFilter,
}

/// View of [`Extractor`].
#[verifier::ext_equal]
pub struct ExtractorV {
    pub manifest_path: Option<Seq<char>>,
    pub packages: Seq<Seq<char>>,
    pub lib_kind: Seq<char>,
    pub derive_attr: Seq<char>,
    pub types: PatternFilterV,
    pub fields: PatternFilterV,
    pub methods: PatternFilterV,
}

impl DeepView for Extractor {
    type V = ExtractorV;

    open spec fn deep_view(&self) -> ExtractorV {
        ExtractorV {
            manifest_path: self.manifest_path.deep_view(),
            packages: self.packages.deep_view(),
            lib_kind: self.lib_kind@,
            derive_attr: self.derive_attr@,
            types: self.types.deep_view(),
            fields: self.fields.deep_view(),
            methods: self.methods.deep_view(),
        }
    }
}

/// All six pattern lists of the configuration are valid regular
/// expressions.
pub open spec fn options_valid(o: OptionsV) -> bool {
    &&& list_valid(o.whitelist_types)
    &&& list_valid(o.whitelist_fields)
    &&& list_valid(o.whitelist_methods)
    &&& list_valid(o.blacklist_types)
    &&& list_valid(o.blacklist_fields)
    &&& list_valid(o.blacklist_methods)
}

/// An empty configured list means "no list".
pub open spec fn filter_of(pats: Seq<Seq<char>>) -> Option<Seq<Seq<char>>> {
    if pats.len() == 0 {
        None
    } else {
        Some(pats)
    }
}

/// The extractor a valid configuration builds.
pub open spec fn extractor_of(o: OptionsV) -> ExtractorV {
    ExtractorV {
        manifest_path: o.manifest_path,
        packages: o.packages,
        lib_kind: "cdylib"@,
        derive_attr: "PyClass"@,
        types: PatternFilterV {
            whitelist: filter_of(o.whitelist_types),
            blacklist: filter_of(o.blacklist_types),
        },
        fields: PatternFilterV {
            whitelist: filter_of(o.whitelist_fields),
            blacklist: filter_of(o.blacklist_fields),
        },
        methods: PatternFilterV {
            whitelist: filter_of(o.whitelist_methods),
            blacklist: filter_of(o.blacklist_methods),
        },
    }
}

impl Extractor {
    /// All three filters hold only valid patterns.
    pub open spec fn wf(&self) -> bool {
        self.types.wf() && self.fields.wf() && self.methods.wf()
    }
}

/// Whether every pattern of the list is a valid regular expression.
fn all_valid(pats: &Vec<String>) -> (r: bool)
    ensures
        r == list_valid(pats.deep_view()),
{
    let mut i: usize = 0;
    while i < pats.len()
        invariant
            0 <= i <= pats.len(),
            forall|j: int|
                0 <= j < i ==> crate::filter::regex_valid(#[trigger] pats.deep_view()[j]),
        decreases pats.len() - i,
    {
        assert(pats.deep_view()[i as int] == pats@[i as int]@);
        if !crate::filter::check_pattern(pats[i].as_str()) {
            assert(!list_valid(pats.deep_view()));
            return false;
        }
        i = i + 1;
    }
    true
}

/// A copy of a pattern list.
fn clone_list(pats: &Vec<String>) -> (r: Vec<String>)
    ensures
        r.deep_view() == pats.deep_view(),
{
    let mut out: Vec<String> = Vec::new();
    let mut i: usize = 0;
    while i < pats.len()
        invariant
            0 <= i <= pats.len(),
            out.deep_view() == pats.deep_view().take(i as int),
        decreases pats.len() - i,
    {
        let c = pats[i].clone();
        let ghost prev = out@;
        out.push(c);
        proof {
            assert(out@ == prev.push(c));
            assert(pats.deep_view().take(i as int).len() == i as int);
            assert(prev.len() == i as int);
            assert(out.deep_view() =~= pats.deep_view().take(i + 1));
        }
        i = i + 1;
    }
    proof {
        assert(pats.deep_view().take(pats.len() as int) =~= pats.deep_view());
    }
    out
}

/// One per-category filter, built from its two configured lists.
fn build_filter(white: &Vec<String>, black: &Vec<String>) -> (r: PatternFilter)
    requires
        list_valid(white.deep_view()),
        list_valid(black.deep_view()),
    ensures
        r.wf(),
        r.deep_view() == (PatternFilterV {
            whitelist: filter_of(white.deep_view()),
            blacklist: filter_of(black.deep_view()),
        }),
{
    let whitelist = if white.len() == 0 {
        None
    } else {
        Some(clone_list(white))
    };
    let blacklist = if black.len() == 0 {
        None
    } else {
        Some(clone_list(black))
    };
    PatternFilter { whitelist, blacklist }
}

/// Whether the list holds a string equal to `s`.
fn contains_string(v: &Vec<String>, s: &String) -> (r: bool)
    ensures
        r == (exists|i: int| 0 <= i < v.deep_view().len() && v.deep_view()[i] == s@),
{
    let mut i: usize = 0;
    while i < v.len()
        invariant
            0 <= i <= v.len(),
            forall|j: int| 0 <= j < i ==> #[trigger] v.deep_view()[j] != s@,
        decreases v.len() - i,
    {
        assert(v.deep_view()[i as int] == v@[i as int]@);
        if v[i] == *s {
            return true;
        }
        i = i + 1;
    }
    false
}

/// Whether the target's kind tag selects it: a library target built as the
/// required library kind.
pub open spec fn target_selected(t: TargetV, lib_kind: Seq<char>) -> bool {
    match t.kind {
        TargetKindV::Lib(kinds) => exists|i: int| 0 <= i < kinds.len() && kinds[i] == lib_kind,
        TargetKindV::Other => false,
    }
}

/// The targets of a manifest that the extractor selects, in manifest order.
pub open spec fn selected_targets(ts: Seq<TargetV>, lib_kind: Seq<char>) -> Seq<TargetV>
    decreases ts.len(),
{
    if ts.len() == 0 {
        Seq::empty()
    } else {
        let rest = selected_targets(ts.drop_last(), lib_kind);
        if target_selected(ts.last(), lib_kind) {
            rest.push(ts.last())
        } else {
            rest
        }
    }
}

proof fn lemma_selected_targets_step(ts: Seq<TargetV>, lib_kind: Seq<char>, i: int)
    requires
        0 <= i < ts.len(),
    ensures
        selected_targets(ts.take(i + 1), lib_kind) == if target_selected(ts[i], lib_kind) {
            selected_targets(ts.take(i), lib_kind).push(ts[i])
        } else {
            selected_targets(ts.take(i), lib_kind)
        },
{
    assert(ts.take(i + 1).drop_last() =~= ts.take(i));
    assert(ts.take(i + 1).last() == ts[i]);
}

/// Whether the package-name selection picks this package.
pub open spec fn package_selected(p: PackageV, selection: Seq<Seq<char>>) -> bool {
    exists|i: int| 0 <= i < selection.len() && selection[i] == p.name
}

/// The workspace members the selection picks, in member order.
pub open spec fn filtered_members(ms: Seq<PackageV>, selection: Seq<Seq<char>>) -> Seq<PackageV>
    decreases ms.len(),
{
    if ms.len() == 0 {
        Seq::empty()
    } else {
        let rest = filtered_members(ms.drop_last(), selection);
        if package_selected(ms.last(), selection) {
            rest.push(ms.last())
        } else {
            rest
        }
    }
}

proof fn lemma_filtered_members_step(ms: Seq<PackageV>, selection: Seq<Seq<char>>, i: int)
    requires
        0 <= i < ms.len(),
    ensures
        filtered_members(ms.take(i + 1), selection) == if package_selected(ms[i], selection) {
            filtered_members(ms.take(i), selection).push(ms[i])
        } else {
            filtered_members(ms.take(i), selection)
        },
{
    assert(ms.take(i + 1).drop_last() =~= ms.take(i));
    assert(ms.take(i + 1).last() == ms[i]);
}

/// The packages one run works on: the current package when no selection is
/// configured, else the members the selection names.
pub open spec fn selected_packages(ws: WorkspaceV, selection: Seq<Seq<char>>) -> Seq<PackageV> {
    if selection.len() == 0 {
        seq![ws.members[ws.current as int]]
    } else {
        filtered_members(ws.members, selection)
    }
}

/// Whether this attribute is the marker: a `derive` attribute whose
/// argument list carries the marker word.
pub open spec fn attr_is_marker(a: AttributeV, marker: Seq<char>) -> bool {
    a.name == "derive"@ && match a.args {
        Some(items) => exists|j: int|
            0 <= j < items.len() && (#[trigger] items[j] matches MetaItemV::Word(w) && w
                == marker),
        None => false,
    }
}

/// Whether some attribute of the list is the marker.
pub open spec fn has_marker(attrs: Seq<AttributeV>, marker: Seq<char>) -> bool {
    exists|i: int| 0 <= i < attrs.len() && attr_is_marker(attrs[i], marker)
}

/// Whether a declaration becomes a class: a struct, passing the type
/// filter, carrying the marker.
pub open spec fn class_qualifies(it: ItemV, ex: ExtractorV) -> bool {
    it.kind is Struct && accepted(ex.types, it.ident) && has_marker(it.attrs, ex.derive_attr)
}

/// The declarations of one source tree that qualify, in source order.
pub open spec fn selected_classes(items: Seq<ItemV>, ex: ExtractorV) -> Seq<ItemV>
    decreases items.len(),
{
    if items.len() == 0 {
        Seq::empty()
    } else {
        let rest = selected_classes(items.drop_last(), ex);
        if class_qualifies(items.last(), ex) {
            rest.push(items.last())
        } else {
            rest
        }
    }
}

proof fn lemma_selected_classes_step(items: Seq<ItemV>, ex: ExtractorV, i: int)
    requires
        0 <= i < items.len(),
    ensures
        selected_classes(items.take(i + 1), ex) == if class_qualifies(items[i], ex) {
            selected_classes(items.take(i), ex).push(items[i])
        } else {
            selected_classes(items.take(i), ex)
        },
{
    assert(items.take(i + 1).drop_last() =~= items.take(i));
    assert(items.take(i + 1).last() == items[i]);
}

/// Whether a field becomes a property: public — checked before any filter —
/// named, and passing the field filter.
pub open spec fn field_selected(f: FieldV, ex: ExtractorV) -> bool {
    f.public && (f.name matches Some(n) && accepted(ex.fields, n))
}

/// The property record of a selected field.
pub open spec fn property_of(f: FieldV) -> PropertyV {
    PropertyV {
        name: match f.name {
            Some(n) => n,
            None => Seq::empty(),
        },
        ty: f.ty,
    }
}

/// The properties a field list yields, in declaration order.
pub open spec fn selected_properties(fs: Seq<FieldV>, ex: ExtractorV) -> Seq<PropertyV>
    decreases fs.len(),
{
    if fs.len() == 0 {
        Seq::empty()
    } else {
        let rest = selected_properties(fs.drop_last(), ex);
        if field_selected(fs.last(), ex) {
            rest.push(property_of(fs.last()))
        } else {
            rest
        }
    }
}

proof fn lemma_selected_properties_step(fs: Seq<FieldV>, ex: ExtractorV, i: int)
    requires
        0 <= i < fs.len(),
    ensures
        selected_properties(fs.take(i + 1), ex) == if field_selected(fs[i], ex) {
            selected_properties(fs.take(i), ex).push(property_of(fs[i]))
        } else {
            selected_properties(fs.take(i), ex)
        },
{
    assert(fs.take(i + 1).drop_last() =~= fs.take(i));
    assert(fs.take(i + 1).last() == fs[i]);
}

/// The properties of a declaration: its fields filtered, for a struct with
/// a field list; nothing for a unit struct or a non-struct.
pub open spec fn item_properties(it: ItemV, ex: ExtractorV) -> Option<Seq<PropertyV>> {
    match it.kind {
        ItemKindV::Struct(data) => match data {
            VariantDataV::Struct(fs) => Some(selected_properties(fs, ex)),
            VariantDataV::Tuple(fs) => Some(selected_properties(fs, ex)),
            VariantDataV::Unit => None,
        },
        _ => None,
    }
}

/// Whether an impl member becomes a method: public — checked before any
/// filter — passing the method filter, and of function kind.
pub open spec fn member_selected(m: ImplMemberV, ex: ExtractorV) -> bool {
    m.public && accepted(ex.methods, m.name) && m.kind is Method
}

/// The methods one impl block's member list yields, in declaration order.
pub open spec fn selected_members(ms: Seq<ImplMemberV>, ex: ExtractorV) -> Seq<MethodV>
    decreases ms.len(),
{
    if ms.len() == 0 {
        Seq::empty()
    } else {
        let rest = selected_members(ms.drop_last(), ex);
        if member_selected(ms.last(), ex) {
            rest.push(MethodV { name: ms.last().name })
        } else {
            rest
        }
    }
}

proof fn lemma_selected_members_step(ms: Seq<ImplMemberV>, ex: ExtractorV, i: int)
    requires
        0 <= i < ms.len(),
    ensures
        selected_members(ms.take(i + 1), ex) == if member_selected(ms[i], ex) {
            selected_members(ms.take(i), ex).push(MethodV { name: ms[i].name })
        } else {
            selected_members(ms.take(i), ex)
        },
{
    assert(ms.take(i + 1).drop_last() =~= ms.take(i));
    assert(ms.take(i + 1).last() == ms[i]);
}

/// The methods one item contributes to a class: the selected members of an
/// inherent impl whose self type is the class's declaration.
pub open spec fn impl_members_for(it: ItemV, class_id: u64, ex: ExtractorV) -> Seq<MethodV> {
    match it.kind {
        ItemKindV::Impl { of_trait, self_id, members } => if !of_trait && self_id == class_id {
            selected_members(members, ex)
        } else {
            Seq::empty()
        },
        _ => Seq::empty(),
    }
}

/// The methods a whole source tree contributes to a class, in source order.
pub open spec fn selected_methods(items: Seq<ItemV>, class_id: u64, ex: ExtractorV) -> Seq<MethodV>
    decreases items.len(),
{
    if items.len() == 0 {
        Seq::empty()
    } else {
        selected_methods(items.drop_last(), class_id, ex) + impl_members_for(
            items.last(),
            class_id,
            ex,
        )
    }
}

proof fn lemma_selected_methods_step(items: Seq<ItemV>, class_id: u64, ex: ExtractorV, i: int)
    requires
        0 <= i < items.len(),
    ensures
        selected_methods(items.take(i + 1), class_id, ex) == selected_methods(
            items.take(i),
            class_id,
            ex,
        ) + impl_members_for(items[i], class_id, ex),
{
    assert(items.take(i + 1).drop_last() =~= items.take(i));
    assert(items.take(i + 1).last() == items[i]);
}

impl Extractor {
    /// Builds an extractor from the configuration. Fails with
    /// [`Error::Config`], before any target is processed, exactly when some
    /// pattern of the six lists is not a valid regular expression.
    pub fn new(options: &Options) -> (r: Result<Self, Error>)
        ensures
            r is Ok <==> options_valid(options.deep_view()),
            r matches Ok(ex) ==> ex.deep_view() == extractor_of(options.deep_view()) && ex.wf(),
            r matches Err(e) ==> e == Error::Config,
    {
        let valid = all_valid(&options.whitelist_types) && all_valid(&options.whitelist_fields)
            && all_valid(&options.whitelist_methods) && all_valid(&options.blacklist_types)
            && all_valid(&options.blacklist_fields) && all_valid(&options.blacklist_methods);
        if !valid {
            return Err(Error::Config);
        }
        let manifest_path = match &options.manifest_path {
            Some(p) => Some(p.clone()),
            None => None,
        };
        let ex = Extractor {
            manifest_path,
            packages: clone_list(&options.packages),
            lib_kind: String::from_str("cdylib"),
            derive_attr: String::from_str("PyClass"),
            types: build_filter(&options.whitelist_types, &options.blacklist_types),
            fields: build_filter(&options.whitelist_fields, &options.blacklist_fields),
            methods: build_filter(&options.whitelist_methods, &options.blacklist_methods),
        };
        proof {
            assert(ex.deep_view() =~= extractor_of(options.deep_view()));
        }
        Ok(ex)
    }

    /// The packages this run works on: the workspace's current package when
    /// no selection is configured, else the members the selection names, in
    /// member order.
    pub fn find_packages<'a>(&self, workspace: &'a Workspace) -> (r: Vec<&'a Package>)
        requires
            workspace.wf(),
        ensures
            r.deep_view() == selected_packages(workspace.deep_view(), self.packages.deep_view()),
    {
        let mut out: Vec<&Package> = Vec::new();
        if self.packages.len() == 0 {
            out.push(&workspace.members[workspace.current]);
            proof {
                assert(out.deep_view() =~= selected_packages(
                    workspace.deep_view(),
                    self.packages.deep_view(),
                ));
            }
            return out;
        }
        let mut i: usize = 0;
        while i < workspace.members.len()
            invariant
                0 <= i <= workspace.members.len(),
                self.packages.deep_view().len() > 0,
                out.deep_view() == filtered_members(
                    workspace.members.deep_view().take(i as int),
                    self.packages.deep_view(),
                ),
            decreases workspace.members.len() - i,
        {
            let p = &workspace.members[i];
            proof {
                lemma_filtered_members_step(
                    workspace.members.deep_view(),
                    self.packages.deep_view(),
                    i as int,
                );
                assert(workspace.members.deep_view()[i as int] == workspace.members@[i as int].deep_view());
            }
            if contains_string(&self.packages, &p.name) {
                let ghost prev = out@;
                out.push(p);
                proof {
                    assert(out@ == prev.push(p));
                    assert(out.deep_view() =~= filtered_members(
                        workspace.members.deep_view().take(i + 1),
                        self.packages.deep_view(),
                    ));
                }
            }
            i = i + 1;
        }
        proof {
            assert(workspace.members.deep_view().take(workspace.members.len() as int)
                =~= workspace.members.deep_view());
        }
        out
    }

    /// The targets of a manifest whose kind tag names the required library
    /// kind, in manifest order.
    pub fn find_targets<'a>(&self, manifest: &'a Package) -> (r: Vec<&'a Target>)
        ensures
            r.deep_view() == selected_targets(manifest.targets.deep_view(), self.lib_kind@),
    {
        let mut out: Vec<&Target> = Vec::new();
        let mut i: usize = 0;
        while i < manifest.targets.len()
            invariant
                0 <= i <= manifest.targets.len(),
                out.deep_view() == selected_targets(
                    manifest.targets.deep_view().take(i as int),
                    self.lib_kind@,
                ),
            decreases manifest.targets.len() - i,
        {
            let t = &manifest.targets[i];
            proof {
                lemma_selected_targets_step(
                    manifest.targets.deep_view(),
                    self.lib_kind@,
                    i as int,
                );
                assert(manifest.targets.deep_view()[i as int] == manifest.targets@[i as int].deep_view());
            }
            let sel = match &t.kind {
                TargetKind::Lib(kinds) => contains_string(kinds, &self.lib_kind),
                TargetKind::Other => false,
            };
            if sel {
                let ghost prev = out@;
                out.push(t);
                proof {
                    assert(out@ == prev.push(t));
                    assert(out.deep_view() =~= selected_targets(
                        manifest.targets.deep_view().take(i + 1),
                        self.lib_kind@,
                    ));
                }
            }
            i = i + 1;
        }
        proof {
            assert(manifest.targets.deep_view().take(manifest.targets.len() as int)
                =~= manifest.targets.deep_view());
        }
        out
    }

    /// Whether one attribute is the marker.
    fn attr_is_marker_exec(&self, a: &Attribute) -> (r: bool)
        ensures
            r == attr_is_marker(a.deep_view(), self.derive_attr@),
    {
        let derive_word = String::from_str("derive");
        if !(a.name == derive_word) {
            return false;
        }
        match &a.args {
            Some(items) => {
                let mut j: usize = 0;
                while j < items.len()
                    invariant
                        0 <= j <= items.len(),
                        a.deep_view().name == "derive"@,
                        a.deep_view().args matches Some(its) && its == items.deep_view(),
                        forall|k: int|
                            0 <= k < j ==> !(#[trigger] items.deep_view()[k] matches
                                MetaItemV::Word(w) && w == self.derive_attr@),
                    decreases items.len() - j,
                {
                    proof {
                        assert(items.deep_view()[j as int] == items@[j as int].deep_view());
                    }
                    match &items[j] {
                        MetaItem::Word(w) => {
                            if *w == self.derive_attr {
                                return true;
                            }
                        },
                        MetaItem::Literal => {},
                    }
                    j = j + 1;
                }
                false
            },
            None => false,
        }
    }

    /// Whether some attribute of the list is the marker.
    fn has_marker_exec(&self, attrs: &Vec<Attribute>) -> (r: bool)
        ensures
            r == has_marker(attrs.deep_view(), self.derive_attr@),
    {
        let mut i: usize = 0;
        while i < attrs.len()
            invariant
                0 <= i <= attrs.len(),
                forall|k: int|
                    0 <= k < i ==> !attr_is_marker(
                        #[trigger] attrs.deep_view()[k],
                        self.derive_attr@,
                    ),
            decreases attrs.len() - i,
        {
            proof {
                assert(attrs.deep_view()[i as int] == attrs@[i as int].deep_view());
            }
            if self.attr_is_marker_exec(&attrs[i]) {
                assert(attr_is_marker(attrs.deep_view()[i as int], self.derive_attr@));
                return true;
            }
            i = i + 1;
        }
        assert(!has_marker(attrs.deep_view(), self.derive_attr@));
        false
    }

    /// Whether a declaration qualifies as a class.
    fn qualifies(&self, item: &Item) -> (r: bool)
        requires
            self.wf(),
        ensures
            r == class_qualifies(item.deep_view(), self.deep_view()),
    {
        let is_struct = match &item.kind {
            ItemKind::Struct(_) => true,
            _ => false,
        };
        if !is_struct {
            return false;
        }
        if !self.types.accepts(item.ident.as_str()) {
            return false;
        }
        self.has_marker_exec(&item.attrs)
    }

    /// The struct declarations of one source tree that carry the marker and
    /// pass the type filter, in source order.
    pub fn find_classes<'a>(&self, items: &'a Vec<Item>) -> (r: Vec<&'a Item>)
        requires
            self.wf(),
        ensures
            r.deep_view() == selected_classes(items.deep_view(), self.deep_view()),
    {
        let mut out: Vec<&Item> = Vec::new();
        let mut i: usize = 0;
        while i < items.len()
            invariant
                self.wf(),
                0 <= i <= items.len(),
                out.deep_view() == selected_classes(
                    items.deep_view().take(i as int),
                    self.deep_view(),
                ),
            decreases items.len() - i,
        {
            let it = &items[i];
            proof {
                lemma_selected_classes_step(items.deep_view(), self.deep_view(), i as int);
                assert(items.deep_view()[i as int] == items@[i as int].deep_view());
            }
            if self.qualifies(it) {
                let ghost prev = out@;
                out.push(it);
                proof {
                    assert(out@ == prev.push(it));
                    assert(out.deep_view() =~= selected_classes(
                        items.deep_view().take(i + 1),
                        self.deep_view(),
                    ));
                }
            }
            i = i + 1;
        }
        proof {
            assert(items.deep_view().take(items.len() as int) =~= items.deep_view());
        }
        out
    }

    /// The properties of the fields of one struct declaration.
    fn select_fields(&self, fs: &Vec<Field>) -> (r: Vec<Property>)
        requires
            self.wf(),
        ensures
            r.deep_view() == selected_properties(fs.deep_view(), self.deep_view()),
    {
        let mut out: Vec<Property> = Vec::new();
        let mut i: usize = 0;
        while i < fs.len()
            invariant
                self.wf(),
                0 <= i <= fs.len(),
                out.deep_view() == selected_properties(
                    fs.deep_view().take(i as int),
                    self.deep_view(),
                ),
            decreases fs.len() - i,
        {
            let f = &fs[i];
            proof {
                lemma_selected_properties_step(fs.deep_view(), self.deep_view(), i as int);
                assert(fs.deep_view()[i as int] == fs@[i as int].deep_view());
            }
            if f.public {
                match &f.name {
                    Some(n) => {
                        if self.fields.accepts(n.as_str()) {
                            let p = Property { name: n.clone(), ty: f.ty.clone() };
                            proof {
                                assert(p.deep_view() == property_of(fs.deep_view()[i as int]));
                            }
                            let ghost prev = out@;
                            out.push(p);
                            proof {
                                assert(out@ == prev.push(p));
                                assert(out.deep_view() =~= selected_properties(
                                    fs.deep_view().take(i + 1),
                                    self.deep_view(),
                                ));
                            }
                        }
                    },
                    None => {},
                }
            }
            i = i + 1;
        }
        proof {
            assert(fs.deep_view().take(fs.len() as int) =~= fs.deep_view());
        }
        out
    }

    /// The properties of one declaration: its public fields passing the
    /// field filter, for a struct with a field list; nothing for a unit
    /// struct or a non-struct item.
    pub fn find_properties(&self, item: &Item) -> (r: Option<Vec<Property>>)
        requires
            self.wf(),
        ensures
            r.deep_view() == item_properties(item.deep_view(), self.deep_view()),
    {
        match &item.kind {
            ItemKind::Struct(data) => match data {
                VariantData::Struct(fs) => Some(self.select_fields(fs)),
                VariantData::Tuple(fs) => Some(self.select_fields(fs)),
                VariantData::Unit => None,
            },
            _ => None,
        }
    }

    /// The methods a whole source tree contributes to one class: the
    /// public, filter-passing, function-kind members of inherent impls
    /// whose self type is the class's declaration, in source order.
    pub fn find_members(&self, items: &Vec<Item>, clazz: &Item) -> (r: Vec<Method>)
        requires
            self.wf(),
        ensures
            r.deep_view() == selected_methods(items.deep_view(), clazz.id, self.deep_view()),
    {
        let mut out: Vec<Method> = Vec::new();
        let mut i: usize = 0;
        while i < items.len()
            invariant
                self.wf(),
                0 <= i <= items.len(),
                out.deep_view() == selected_methods(
                    items.deep_view().take(i as int),
                    clazz.id,
                    self.deep_view(),
                ),
            decreases items.len() - i,
        {
            let it = &items[i];
            proof {
                lemma_selected_methods_step(
                    items.deep_view(),
                    clazz.id,
                    self.deep_view(),
                    i as int,
                );
                assert(items.deep_view()[i as int] == items@[i as int].deep_view());
            }
            match &it.kind {
                ItemKind::Impl { of_trait, self_id, members } => {
                    if !*of_trait && *self_id == clazz.id {
                        let mut j: usize = 0;
                        while j < members.len()
                            invariant
                                self.wf(),
                                0 <= j <= members.len(),
                                it.kind matches ItemKind::Impl {
                                    of_trait: ot,
                                    self_id: sid,
                                    members: ms,
                                } && !ot && sid == clazz.id && ms.deep_view()
                                    == members.deep_view(),
                                out.deep_view() == selected_methods(
                                    items.deep_view().take(i as int),
                                    clazz.id,
                                    self.deep_view(),
                                ) + selected_members(
                                    members.deep_view().take(j as int),
                                    self.deep_view(),
                                ),
                            decreases members.len() - j,
                        {
                            let m = &members[j];
                            proof {
                                lemma_selected_members_step(
                                    members.deep_view(),
                                    self.deep_view(),
                                    j as int,
                                );
                                assert(members.deep_view()[j as int]
                                    == members@[j as int].deep_view());
                            }
                            let is_method = match &m.kind {
                                crate::ast::MemberKind::Method => true,
                                crate::ast::MemberKind::Other => false,
                            };
                            if m.public && self.methods.accepts(m.name.as_str()) && is_method {
                                let meth = Method { name: m.name.clone() };
                                proof {
                                    assert(meth.deep_view() == (MethodV {
                                        name: members.deep_view()[j as int].name,
                                    }));
                                }
                                let ghost prev = out@;
                                let ghost a = selected_methods(
                                    items.deep_view().take(i as int),
                                    clazz.id,
                                    self.deep_view(),
                                );
                                let ghost b = selected_members(
                                    members.deep_view().take(j as int),
                                    self.deep_view(),
                                );
                                out.push(meth);
                                proof {
                                    assert(out@ == prev.push(meth));
                                    assert(out.deep_view() =~= (a + b).push(meth.deep_view()));
                                    assert((a + b).push(meth.deep_view()) =~= a + b.push(
                                        meth.deep_view(),
                                    ));
                                    assert(out.deep_view() =~= a + selected_members(
                                        members.deep_view().take(j + 1),
                                        self.deep_view(),
                                    ));
                                }
                            }
                            j = j + 1;
                        }
                        proof {
                            assert(members.deep_view().take(members.len() as int)
                                =~= members.deep_view());
                            assert(impl_members_for(
                                items.deep_view()[i as int],
                                clazz.id,
                                self.deep_view(),
                            ) == selected_members(members.deep_view(), self.deep_view()));
                        }
                    }
                },
                _ => {},
            }
            proof {
                assert(out.deep_view() =~= selected_methods(
                    items.deep_view().take(i + 1),
                    clazz.id,
                    self.deep_view(),
                ));
            }
            i = i + 1;
        }
        proof {
            assert(items.deep_view().take(items.len() as int) =~= items.deep_view());
        }
        out
    }
}

/// The marker predicate: only a struct can qualify, and only through a
/// `derive` attribute whose argument list carries the marker word — a bare
/// marker attribute, or the marker under another attribute name, never
/// qualifies.
pub proof fn lemma_marker_predicate(it: ItemV, ex: ExtractorV)
    ensures
        class_qualifies(it, ex) ==> it.kind is Struct,
        class_qualifies(it, ex) ==> has_marker(it.attrs, ex.derive_attr),
        forall|a: AttributeV| a.args is None ==> !attr_is_marker(a, ex.derive_attr),
        forall|a: AttributeV| a.name != "derive"@ ==> !attr_is_marker(a, ex.derive_attr),
{
}

/// The visibility gate precedes the filters: a private field is never
/// selected, whatever the filter lists say about its name.
pub proof fn lemma_private_field_excluded(f: FieldV, ex: ExtractorV)
    ensures
        !f.public ==> !field_selected(f, ex),
{
}

/// Every extracted property comes from a public field of the field list:
/// whichever property stands at position `j` of the selection, some public
/// field supplies its name — no filter configuration can smuggle a private
/// field's name into the property list.
pub proof fn lemma_properties_from_public_fields(fs: Seq<FieldV>, ex: ExtractorV, j: int)
    requires
        0 <= j < selected_properties(fs, ex).len(),
    ensures
        exists|i: int|
            0 <= i < fs.len() && #[trigger] fs[i].public && fs[i].name == Some(
                selected_properties(fs, ex)[j].name,
            ),
    decreases fs.len(),
{
    let pre = fs.drop_last();
    let rest = selected_properties(pre, ex);
    let whole = selected_properties(fs, ex);
    let last = fs.last();
    if j < rest.len() {
        lemma_properties_from_public_fields(pre, ex, j);
        assert(whole[j] == rest[j]);
        let i = choose|i: int|
            0 <= i < pre.len() && #[trigger] pre[i].public && pre[i].name == Some(rest[j].name);
        assert(pre[i] == fs[i]);
        assert(fs[i].public && fs[i].name == Some(whole[j].name));
    } else {
        let i = fs.len() - 1;
        assert(field_selected(last, ex));
        assert(whole == rest.push(property_of(last)));
        assert(whole[j] == property_of(last));
        assert(fs[i].public && fs[i].name == Some(whole[j].name));
    }
}

} // verus!
