//! The pipeline: from a configuration and the parsed source trees of the
//! selected targets to the rendered bindings text.
//!
//! Workspace resolution, parsing and writing the output are collaborators
//! outside this crate. A run first builds the extractor — rejecting an
//! invalid configuration before any target is touched — selects packages
//! and targets, has the collaborator parse each target's source path, and
//! hands the outcomes back here; a target whose parse failed is skipped
//! while the others proceed.

use vstd::prelude::*;

use crate::ast::{Item, ItemV};
use crate::builder::{binding_text, Builder, BuilderV};
use crate::errors::Error;
use crate::extractor::{extractor_of, item_properties, options_valid, selected_classes,
    selected_methods, Extractor, ExtractorV};
use crate::options::{Options, OptionsV};

verus! {

/// What the parser collaborator handed back for one selected target.
pub enum ParseOutcome {
    /// The target's source file parsed into its item list.
    Parsed(Vec<Item>),
    /// The target's source could not be parsed; the target is skipped and
    /// the rest of the run proceeds.
    Failed,
}

/// View of [`ParseOutcome`].
pub enum ParseOutcomeV {
    Parsed(Seq<ItemV>),
    Failed,
}

impl DeepView for ParseOutcome {
    type V = ParseOutcomeV;

    open spec fn deep_view(&self) -> ParseOutcomeV {
        match self {
            ParseOutcome::Parsed(items) => ParseOutcomeV::Parsed(items.deep_view()),
            ParseOutcome::Failed => ParseOutcomeV::Failed,
        }
    }
}

/// The class record one qualifying declaration yields: its identifier, its
/// selected properties (none for a unit struct), and the methods the whole
/// source tree contributes to it.
pub open spec fn builder_of(it: ItemV, items: Seq<ItemV>, ex: ExtractorV) -> BuilderV {
    BuilderV {
        ident: it.ident,
        fields: match item_properties(it, ex) {
            Some(ps) => ps,
            None => Seq::empty(),
        },
        methods: selected_methods(items, it.id, ex),
    }
}

/// The class records of a class list, in list order.
pub open spec fn builders_of(classes: Seq<ItemV>, items: Seq<ItemV>, ex: ExtractorV) -> Seq<
    BuilderV,
>
    decreases classes.len(),
{
    if classes.len() == 0 {
        Seq::empty()
    } else {
        builders_of(classes.drop_last(), items, ex).push(builder_of(classes.last(), items, ex))
    }
}

/// All class records of one parsed source tree, in source order.
pub open spec fn classes_of_items(items: Seq<ItemV>, ex: ExtractorV) -> Seq<BuilderV> {
    builders_of(selected_classes(items, ex), items, ex)
}

/// The class records one parse outcome contributes: none when the parse
/// failed.
pub open spec fn outcome_classes(o: ParseOutcomeV, ex: ExtractorV) -> Seq<BuilderV> {
    match o {
        ParseOutcomeV::Parsed(items) => classes_of_items(items, ex),
        ParseOutcomeV::Failed => Seq::empty(),
    }
}

/// The class records of a whole run, in target order.
pub open spec fn pipeline_classes(outs: Seq<ParseOutcomeV>, ex: ExtractorV) -> Seq<BuilderV>
    decreases outs.len(),
{
    if outs.len() == 0 {
        Seq::empty()
    } else {
        pipeline_classes(outs.drop_last(), ex) + outcome_classes(outs.last(), ex)
    }
}

proof fn lemma_builders_of_step(classes: Seq<ItemV>, items: Seq<ItemV>, ex: ExtractorV, i: int)
    requires
        0 <= i < classes.len(),
    ensures
        builders_of(classes.take(i + 1), items, ex) == builders_of(classes.take(i), items, ex).push(
            builder_of(classes[i], items, ex),
        ),
{
    assert(classes.take(i + 1).drop_last() =~= classes.take(i));
    assert(classes.take(i + 1).last() == classes[i]);
}

proof fn lemma_pipeline_classes_step(outs: Seq<ParseOutcomeV>, ex: ExtractorV, i: int)
    requires
        0 <= i < outs.len(),
    ensures
        pipeline_classes(outs.take(i + 1), ex) == pipeline_classes(outs.take(i), ex)
            + outcome_classes(outs[i], ex),
{
    assert(outs.take(i + 1).drop_last() =~= outs.take(i));
    assert(outs.take(i + 1).last() == outs[i]);
}

/// The class records of one parsed source tree.
fn builders_for(extractor: &Extractor, items: &Vec<Item>) -> (r: Vec<Builder>)
    requires
        extractor.wf(),
    ensures
        r.deep_view() == classes_of_items(items.deep_view(), extractor.deep_view()),
{
    let classes = extractor.find_classes(items);
    let mut out: Vec<Builder> = Vec::new();
    let mut i: usize = 0;
    proof {
        assert(classes.deep_view().take(0) =~= Seq::<ItemV>::empty());
    }
    while i < classes.len()
        invariant
            extractor.wf(),
            classes.deep_view() == selected_classes(items.deep_view(), extractor.deep_view()),
            0 <= i <= classes.len(),
            out.deep_view() == builders_of(
                classes.deep_view().take(i as int),
                items.deep_view(),
                extractor.deep_view(),
            ),
        decreases classes.len() - i,
    {
        let clazz = classes[i];
        proof {
            lemma_builders_of_step(
                classes.deep_view(),
                items.deep_view(),
                extractor.deep_view(),
                i as int,
            );
            assert(classes.deep_view()[i as int] == classes@[i as int].deep_view());
        }
        let fields = match extractor.find_properties(clazz) {
            Some(fs) => fs,
            None => Vec::new(),
        };
        let methods = extractor.find_members(items, clazz);
        let b = Builder { ident: clazz.ident.clone(), fields, methods };
        proof {
            assert(b.deep_view() =~= builder_of(
                classes.deep_view()[i as int],
                items.deep_view(),
                extractor.deep_view(),
            ));
        }
        let ghost prev = out@;
        out.push(b);
        proof {
            assert(out@ == prev.push(b));
            assert(out.deep_view() =~= builders_of(
                classes.deep_view().take(i + 1),
                items.deep_view(),
                extractor.deep_view(),
            ));
        }
        i = i + 1;
    }
    proof {
        assert(classes.deep_view().take(classes.len() as int) =~= classes.deep_view());
    }
    out
}

/// The bindings of a whole run, in target order, each class's fragments in
/// their fixed order.
pub struct Generated {
    pub classes: Vec<Builder>,
}

/// The concatenated bindings of a class list, in list order.
pub open spec fn bindings_text(cs: Seq<BuilderV>) -> Seq<char>
    decreases cs.len(),
{
    if cs.len() == 0 {
        Seq::empty()
    } else {
        bindings_text(cs.drop_last()) + binding_text(cs.last())
    }
}

/// The whole output: the header that marks the file as generated, then
/// every class's binding.
pub open spec fn rendered_text(cs: Seq<BuilderV>) -> Seq<char> {
    "/* automatically generated by cpython-gen */\n\n"@ + bindings_text(cs)
}

impl Generated {
    /// The class records of one target's parse outcome: a parse failure
    /// yields none — the target is skipped, not the run.
    pub fn process_target(extractor: &Extractor, outcome: &ParseOutcome) -> (r: Vec<Builder>)
        requires
            extractor.wf(),
        ensures
            r.deep_view() == outcome_classes(outcome.deep_view(), extractor.deep_view()),
    {
        match outcome {
            ParseOutcome::Parsed(items) => builders_for(extractor, items),
            ParseOutcome::Failed => Vec::new(),
        }
    }

    /// Runs the pipeline over the parse outcomes of the selected targets,
    /// in target order. Fails with [`Error::Config`], before any outcome is
    /// read, exactly when the configuration holds an invalid pattern.
    pub fn generate(options: &Options, parses: &Vec<ParseOutcome>) -> (r: Result<Generated, Error>)
        ensures
            r is Ok <==> options_valid(options.deep_view()),
            r matches Ok(g) ==> g.classes.deep_view() == pipeline_classes(
                parses.deep_view(),
                extractor_of(options.deep_view()),
            ),
            r matches Err(e) ==> e == Error::Config,
    {
        let extractor = match Extractor::new(options) {
            Ok(ex) => ex,
            Err(e) => {
                return Err(e);
            },
        };
        let mut classes: Vec<Builder> = Vec::new();
        let mut i: usize = 0;
        proof {
            assert(parses.deep_view().take(0) =~= Seq::<ParseOutcomeV>::empty());
        }
        while i < parses.len()
            invariant
                extractor.wf(),
                extractor.deep_view() == extractor_of(options.deep_view()),
                0 <= i <= parses.len(),
                classes.deep_view() == pipeline_classes(
                    parses.deep_view().take(i as int),
                    extractor.deep_view(),
                ),
            decreases parses.len() - i,
        {
            proof {
                lemma_pipeline_classes_step(parses.deep_view(), extractor.deep_view(), i as int);
                assert(parses.deep_view()[i as int] == parses@[i as int].deep_view());
            }
            let mut found = Generated::process_target(&extractor, &parses[i]);
            let ghost prev = classes@;
            let ghost found_snapshot = found@;
            classes.append(&mut found);
            proof {
                assert(classes@ == prev + found_snapshot);
                assert(classes.deep_view() =~= pipeline_classes(
                    parses.deep_view().take(i + 1),
                    extractor.deep_view(),
                ));
            }
            i = i + 1;
        }
        proof {
            assert(parses.deep_view().take(parses.len() as int) =~= parses.deep_view());
        }
        Ok(Generated { classes })
    }

    /// The concatenated bindings of every class of the run.
    fn render_classes(&self) -> (r: String)
        ensures
            r@ == bindings_text(self.classes.deep_view()),
    {
        let mut out = String::new();
        let mut i: usize = 0;
        proof {
            assert(self.classes.deep_view().take(0) =~= Seq::<BuilderV>::empty());
        }
        while i < self.classes.len()
            invariant
                0 <= i <= self.classes.len(),
                out@ == bindings_text(self.classes.deep_view().take(i as int)),
            decreases self.classes.len() - i,
        {
            proof {
                assert(self.classes.deep_view().take(i + 1).drop_last() =~= self.classes
                    .deep_view().take(i as int));
                assert(self.classes.deep_view().take(i + 1).last() == self.classes.deep_view()[i as int]);
                assert(self.classes.deep_view()[i as int] == self.classes@[i as int].deep_view());
            }
            let b = self.classes[i].build();
            out.append(b.as_str());
            i = i + 1;
        }
        proof {
            assert(self.classes.deep_view().take(self.classes.len() as int) =~= self.classes
                .deep_view());
        }
        out
    }

    /// The whole output text: the generated-file header, then every
    /// class's binding in run order.
    pub fn render(&self) -> (r: String)
        ensures
            r@ == rendered_text(self.classes.deep_view()),
    {
        let mut out = String::from_str("/* automatically generated by cpython-gen */\n\n");
        let body = self.render_classes();
        out.append(body.as_str());
        out
    }
}

/// Replacing one field of the configuration.
pub open spec fn with_manifest_path(o: OptionsV, p: Seq<char>) -> OptionsV {
    OptionsV { manifest_path: Some(p), ..o }
}

/// Appending one entry to the package selection.
pub open spec fn with_package(o: OptionsV, p: Seq<char>) -> OptionsV {
    OptionsV { packages: o.packages.push(p), ..o }
}

/// Appending one pattern to a whitelist.
pub open spec fn with_whitelist_type(o: OptionsV, p: Seq<char>) -> OptionsV {
    OptionsV { whitelist_types: o.whitelist_types.push(p), ..o }
}

/// Appending one pattern to a whitelist.
pub open spec fn with_whitelist_field(o: OptionsV, p: Seq<char>) -> OptionsV {
    OptionsV { whitelist_fields: o.whitelist_fields.push(p), ..o }
}

/// Appending one pattern to a whitelist.
pub open spec fn with_whitelist_method(o: OptionsV, p: Seq<char>) -> OptionsV {
    OptionsV { whitelist_methods: o.whitelist_methods.push(p), ..o }
}

/// Appending one pattern to a blacklist.
pub open spec fn with_blacklist_type(o: OptionsV, p: Seq<char>) -> OptionsV {
    OptionsV { blacklist_types: o.blacklist_types.push(p), ..o }
}

/// Appending one pattern to a blacklist.
pub open spec fn with_blacklist_field(o: OptionsV, p: Seq<char>) -> OptionsV {
    OptionsV { blacklist_fields: o.blacklist_fields.push(p), ..o }
}

/// Appending one pattern to a blacklist.
pub open spec fn with_blacklist_method(o: OptionsV, p: Seq<char>) -> OptionsV {
    OptionsV { blacklist_methods: o.blacklist_methods.push(p), ..o }
}

/// The configuration-builder surface of the pipeline.
pub struct Generator {
    pub options: Options,
}

impl Generator {
    /// A generator with fresh options.
    pub fn new() -> (r: Self)
        ensures
            r.options.manifest_path is None,
            r.options.packages@.len() == 0,
            r.options.whitelist_types@.len() == 0,
            r.options.whitelist_fields@.len() == 0,
            r.options.whitelist_methods@.len() == 0,
            r.options.blacklist_types@.len() == 0,
            r.options.blacklist_fields@.len() == 0,
            r.options.blacklist_methods@.len() == 0,
    {
        Generator { options: Options::new() }
    }

    /// Overrides where the workspace manifest is looked for.
    pub fn manifest_path(&mut self, path: &str)
        ensures
            final(self).options.deep_view() == with_manifest_path(
                old(self).options.deep_view(),
                path@,
            ),
    {
        let ghost pre = *self;
        self.options.manifest_path = Some(String::from_str(path));
        proof {
            assert(self.options.deep_view() =~= with_manifest_path(
                pre.options.deep_view(),
                path@,
            ));
        }
    }

    /// Adds one package name to the explicit selection; an empty selection
    /// means the current package.
    pub fn package(&mut self, name: &str)
        ensures
            final(self).options.deep_view() == with_package(old(self).options.deep_view(), name@),
    {
        let ghost pre = *self;
        self.options.packages.push(String::from_str(name));
        proof {
            assert(self.options.deep_view() =~= with_package(pre.options.deep_view(), name@));
        }
    }

    /// Adds one pattern to the type whitelist.
    pub fn whitelist_type(&mut self, pattern: &str)
        ensures
            final(self).options.deep_view() == with_whitelist_type(
                old(self).options.deep_view(),
                pattern@,
            ),
    {
        let ghost pre = *self;
        self.options.whitelist_types.push(String::from_str(pattern));
        proof {
            assert(self.options.deep_view() =~= with_whitelist_type(
                pre.options.deep_view(),
                pattern@,
            ));
        }
    }

    /// Adds one pattern to the field whitelist.
    pub fn whitelist_field(&mut self, pattern: &str)
        ensures
            final(self).options.deep_view() == with_whitelist_field(
                old(self).options.deep_view(),
                pattern@,
            ),
    {
        let ghost pre = *self;
        self.options.whitelist_fields.push(String::from_str(pattern));
        proof {
            assert(self.options.deep_view() =~= with_whitelist_field(
                pre.options.deep_view(),
                pattern@,
            ));
        }
    }

    /// Adds one pattern to the method whitelist.
    pub fn whitelist_method(&mut self, pattern: &str)
        ensures
            final(self).options.deep_view() == with_whitelist_method(
                old(self).options.deep_view(),
                pattern@,
            ),
    {
        let ghost pre = *self;
        self.options.whitelist_methods.push(String::from_str(pattern));
        proof {
            assert(self.options.deep_view() =~= with_whitelist_method(
                pre.options.deep_view(),
                pattern@,
            ));
        }
    }

    /// Adds one pattern to the type blacklist.
    pub fn blacklist_type(&mut self, pattern: &str)
        ensures
            final(self).options.deep_view() == with_blacklist_type(
                old(self).options.deep_view(),
                pattern@,
            ),
    {
        let ghost pre = *self;
        self.options.blacklist_types.push(String::from_str(pattern));
        proof {
            assert(self.options.deep_view() =~= with_blacklist_type(
                pre.options.deep_view(),
                pattern@,
            ));
        }
    }

    /// Adds one pattern to the field blacklist.
    pub fn blacklist_field(&mut self, pattern: &str)
        ensures
            final(self).options.deep_view() == with_blacklist_field(
                old(self).options.deep_view(),
                pattern@,
            ),
    {
        let ghost pre = *self;
        self.options.blacklist_fields.push(String::from_str(pattern));
        proof {
            assert(self.options.deep_view() =~= with_blacklist_field(
                pre.options.deep_view(),
                pattern@,
            ));
        }
    }

    /// Adds one pattern to the method blacklist.
    pub fn blacklist_method(&mut self, pattern: &str)
        ensures
            final(self).options.deep_view() == with_blacklist_method(
                old(self).options.deep_view(),
                pattern@,
            ),
    {
        let ghost pre = *self;
        self.options.blacklist_methods.push(String::from_str(pattern));
        proof {
            assert(self.options.deep_view() =~= with_blacklist_method(
                pre.options.deep_view(),
                pattern@,
            ));
        }
    }

    /// Runs the pipeline with this generator's options over the parse
    /// outcomes of the selected targets.
    pub fn generate(&self, parses: &Vec<ParseOutcome>) -> (r: Result<Generated, Error>)
        ensures
            r is Ok <==> options_valid(self.options.deep_view()),
            r matches Ok(g) ==> g.classes.deep_view() == pipeline_classes(
                parses.deep_view(),
                extractor_of(self.options.deep_view()),
            ),
            r matches Err(e) ==> e == Error::Config,
    {
        Generated::generate(&self.options, parses)
    }
}

/// Idempotence of generation: the rendered output is a function of the
/// configuration and the parsed sources alone, so two runs over an
/// unchanged workspace and unchanged options yield identical text.
pub proof fn lemma_generate_idempotent(
    o: OptionsV,
    parses: Seq<ParseOutcomeV>,
    first: Seq<char>,
    second: Seq<char>,
)
    requires
        first == rendered_text(pipeline_classes(parses, extractor_of(o))),
        second == rendered_text(pipeline_classes(parses, extractor_of(o))),
    ensures
        first == second,
{
}

} // verus!
