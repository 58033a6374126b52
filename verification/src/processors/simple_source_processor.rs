//! A source processor: it takes no input, and on every trigger emits one new
//! flow file whose content was configured on schedule, optionally uppercased.

use vstd::prelude::*;
use crate::api::{
    Logger, ProcessContext, ProcessSession, ProcessSessionFactory, Processor, resolve_property,
    spec_resolve,
};
use crate::definition::{
    DefinitionModel, ProcessorDefinition, ProcessorInputRequirement, Property, PropertyModel,
    StandardPropertyValidator,
};
use crate::processors::{spec_success_relationship, success_relationship};
use crate::text::{parse_bool, spec_parse_bool, to_upper, upper_of};

verus! {

/// The `Content` property: what to write into each emitted flow file.
pub open spec fn spec_content_property() -> PropertyModel {
    PropertyModel {
        name: "Content"@,
        description: "What to write to the flowfile."@,
        is_required: false,
        is_sensitive: false,
        supports_expr_lang: false,
        default_value: Some("Something default to write"@),
        validator: StandardPropertyValidator::AlwaysValidValidator,
        allowed_values: Seq::empty(),
    }
}

/// Builds the `Content` property.
pub fn content_property() -> (r: Property)
    ensures
        r@ == spec_content_property(),
{
    let r = Property {
        name: "Content".to_owned(),
        description: "What to write to the flowfile.".to_owned(),
        is_required: false,
        is_sensitive: false,
        supports_expr_lang: false,
        default_value: Some("Something default to write".to_owned()),
        validator: StandardPropertyValidator::AlwaysValidValidator,
        allowed_values: Vec::new(),
    };
    proof {
        assert(r@ =~~= spec_content_property());
    }
    r
}

/// The `Shouting` property: whether the content is uppercased.
pub open spec fn spec_shout_property() -> PropertyModel {
    PropertyModel {
        name: "Shouting"@,
        description: "do you want to shout?"@,
        is_required: true,
        is_sensitive: false,
        supports_expr_lang: false,
        default_value: Some("false"@),
        validator: StandardPropertyValidator::BoolValidator,
        allowed_values: Seq::empty(),
    }
}

/// Builds the `Shouting` property.
pub fn shout_property() -> (r: Property)
    ensures
        r@ == spec_shout_property(),
{
    let r = Property {
        name: "Shouting".to_owned(),
        description: "do you want to shout?".to_owned(),
        is_required: true,
        is_sensitive: false,
        supports_expr_lang: false,
        default_value: Some("false".to_owned()),
        validator: StandardPropertyValidator::BoolValidator,
        allowed_values: Vec::new(),
    };
    proof {
        assert(r@ =~~= spec_shout_property());
    }
    r
}

/// Whether a configuration asks for shouting: the resolved `Shouting` value
/// where it is a boolean, `false` where it is missing or unparsable.
pub open spec fn spec_scheduled_shouting(configured: Map<Seq<char>, Seq<char>>) -> bool {
    match spec_resolve(configured, spec_shout_property()) {
        Some(s) => match spec_parse_bool(s) {
            Some(b) => b,
            None => false,
        },
        None => false,
    }
}

/// The content a configuration resolves to, before any shouting: the
/// resolved `Content` value, or the hardcoded fallback where even the
/// declared default is absent.
pub open spec fn spec_scheduled_base_content(configured: Map<Seq<char>, Seq<char>>) -> Seq<char> {
    match spec_resolve(configured, spec_content_property()) {
        Some(s) => s,
        None => "Default content"@,
    }
}

/// The content `on_schedule` caches: the resolved content, uppercased when
/// the configuration asks for shouting.
pub open spec fn spec_scheduled_content(configured: Map<Seq<char>, Seq<char>>) -> Seq<char> {
    if spec_scheduled_shouting(configured) {
        upper_of(spec_scheduled_base_content(configured))
    } else {
        spec_scheduled_base_content(configured)
    }
}

/// Whether one trigger of the source processor routed its records from `pre`
/// to `post` over a cached `content`: either the store had nothing to
/// allocate and nothing was routed, or exactly one new flow file carrying
/// the content went to `success`.
pub open spec fn spec_source_trigger_post(
    pre: Seq<(Seq<char>, Seq<char>)>,
    post: Seq<(Seq<char>, Seq<char>)>,
    content: Seq<char>,
) -> bool {
    post == pre || post == pre.push((spec_success_relationship().name, content))
}

/// Emits one flow file per trigger, carrying the content configured on
/// schedule.
pub struct SimpleSourceProcessor<L: Logger> {
    pub logger: L,
    pub content: String,
}

impl<L: Logger> Processor<L> for SimpleSourceProcessor<L> {
    /// Construction caches nothing: the content starts empty and is resolved
    /// on schedule.
    fn new(logger: L) -> (r: Self)
        ensures
            r.logger == logger,
            r.content@ == Seq::<char>::empty(),
    {
        SimpleSourceProcessor { logger, content: String::new() }
    }

    /// Resolves and caches the content to emit: the `Content` property (its
    /// declared default where unset, a hardcoded fallback where even that is
    /// absent), uppercased when `Shouting` resolves to `true`. An unparsable
    /// `Shouting` value falls back to `false`. No flow file is touched.
    fn on_schedule<P: ProcessContext, F: ProcessSessionFactory>(
        &mut self,
        context: &P,
        _session_factory: &mut F,
    )
        ensures
            final(self).content@ == spec_scheduled_content(context.configured()),
    {
        self.logger.trace("on_schedule entry");
        let shout = shout_property();
        let shouting = match resolve_property(context, &shout) {
            Some(value) => match parse_bool(value.as_str()) {
                Some(b) => b,
                None => false,
            },
            None => false,
        };
        let content = content_property();
        self.content = match resolve_property(context, &content) {
            Some(value) => value,
            None => String::from_str("Default content"),
        };
        if shouting {
            self.content = to_upper(self.content.as_str());
        }
        self.logger.trace("on_schedule exit");
    }

    /// Creates one new flow file, writes the cached content into it, and
    /// routes it to `success`; where the store can allocate nothing this
    /// cycle, nothing is routed. The queue and the cached content are left
    /// as they are.
    fn on_trigger<P: ProcessContext, S: ProcessSession>(&mut self, _context: &P, session: &mut S)
        ensures
            final(self).content == old(self).content,
            final(session).queued() == old(session).queued(),
            spec_source_trigger_post(
                old(session).transferred(),
                final(session).transferred(),
                old(self).content@,
            ),
    {
        self.logger.trace("on_trigger entry");
        match session.create() {
            Some(mut new_ff) => {
                self.logger.info("Created new flowfile");
                session.write(&mut new_ff, self.content.as_str());
                session.transfer(new_ff, "success");
            },
            None => {},
        }
        self.logger.trace("on_trigger exit");
    }
}

/// The definition of the source processor: single-threaded, input forbidden,
/// no dynamic capabilities, one `success` relationship, the `Content` and
/// `Shouting` properties.
pub open spec fn spec_simple_source_processor_definition() -> DefinitionModel {
    DefinitionModel {
        type_namespace: "rust_extension"@,
        class_name: "mzink.processors.rust.SimpleSourceProcessor"@,
        description: "A rust processor that acts as a source."@,
        is_single_threaded: true,
        input_requirement: ProcessorInputRequirement::Forbidden,
        supports_dynamic_properties: false,
        supports_dynamic_relationships: false,
        relationships: seq![spec_success_relationship()],
        properties: seq![spec_content_property(), spec_shout_property()],
    }
}

/// Builds the source processor's definition for registration.
pub fn create_simple_source_processor_definition() -> (r: ProcessorDefinition)
    ensures
        r@ == spec_simple_source_processor_definition(),
{
    let mut definition = ProcessorDefinition::new(
        "rust_extension",
        "mzink.processors.rust.SimpleSourceProcessor",
        "A rust processor that acts as a source.",
    );
    definition.is_single_threaded = true;
    definition.input_requirement = ProcessorInputRequirement::Forbidden;
    definition.supports_dynamic_properties = false;
    definition.supports_dynamic_relationships = false;
    let mut relationships: Vec<crate::definition::Relationship> = Vec::new();
    relationships.push(success_relationship());
    let mut properties: Vec<Property> = Vec::new();
    properties.push(content_property());
    properties.push(shout_property());
    let declared = definition.initialize(relationships, properties);
    proof {
        reveal_strlit("Content");
        reveal_strlit("Shouting");
        assert(spec_content_property().name[0] == 'C' && spec_shout_property().name[0] == 'S');
        assert(declared is Ok);
        assert(definition@ =~~= spec_simple_source_processor_definition());
    }
    definition
}

/// Every flow file the source processor creates and routes during one
/// trigger is routed exactly once — the earlier records are kept, at most
/// one record is appended — and the relationship it is routed to is declared
/// in the processor's definition.
pub proof fn lemma_source_trigger_routes_to_declared(
    pre: Seq<(Seq<char>, Seq<char>)>,
    post: Seq<(Seq<char>, Seq<char>)>,
    content: Seq<char>,
)
    requires
        spec_source_trigger_post(pre, post, content),
    ensures
        forall|i: int| 0 <= i < pre.len() ==> post[i] == pre[i],
        post.len() == pre.len() || post.len() == pre.len() + 1,
        post.len() == pre.len() + 1 ==> post[pre.len() as int] == (
            spec_success_relationship().name,
            content,
        ) && spec_simple_source_processor_definition().declares_relationship(
            spec_success_relationship().name,
        ),
{
    if post.len() == pre.len() + 1 {
        assert(spec_simple_source_processor_definition().relationships[0].name
            == spec_success_relationship().name);
    }
}

} // verus!
