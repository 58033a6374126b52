//! A processor that logs the content of each incoming flow file at a
//! configurable level and passes the flow file on to `success`.

use vstd::prelude::*;
use crate::api::{
    Logger, ProcessContext, ProcessSession, ProcessSessionFactory, Processor, resolve_property,
    spec_resolve,
};
use crate::definition::{
    DefinitionModel, ProcessorDefinition, ProcessorInputRequirement, Property, PropertyModel,
    StandardPropertyValidator,
};
use crate::level::{LogLevel, level_name, parse_log_level, spec_level_name, spec_parse_log_level};
use crate::processors::{spec_success_relationship, success_relationship};

verus! {

/// The `Log Level` property: required, defaulting to `info`, restricted to
/// the five level names.
pub open spec fn spec_log_level_property() -> PropertyModel {
    PropertyModel {
        name: "Log Level"@,
        description: "The level of logging."@,
        is_required: true,
        is_sensitive: false,
        supports_expr_lang: false,
        default_value: Some("info"@),
        validator: StandardPropertyValidator::AlwaysValidValidator,
        allowed_values: seq![
            spec_level_name(LogLevel::Trace),
            spec_level_name(LogLevel::Debug),
            spec_level_name(LogLevel::Info),
            spec_level_name(LogLevel::Warn),
            spec_level_name(LogLevel::Error),
        ],
    }
}

/// Builds the `Log Level` property.
pub fn log_level_property() -> (r: Property)
    ensures
        r@ == spec_log_level_property(),
{
    let mut allowed: Vec<String> = Vec::new();
    allowed.push(level_name(LogLevel::Trace));
    allowed.push(level_name(LogLevel::Debug));
    allowed.push(level_name(LogLevel::Info));
    allowed.push(level_name(LogLevel::Warn));
    allowed.push(level_name(LogLevel::Error));
    let r = Property {
        name: "Log Level".to_owned(),
        description: "The level of logging.".to_owned(),
        is_required: true,
        is_sensitive: false,
        supports_expr_lang: false,
        default_value: Some("info".to_owned()),
        validator: StandardPropertyValidator::AlwaysValidValidator,
        allowed_values: allowed,
    };
    proof {
        assert(r@ =~~= spec_log_level_property());
    }
    r
}

/// Every allowed value the `Log Level` property declares names a level, and
/// parsing it yields exactly that level: the declared value set and the
/// parser agree.
pub proof fn lemma_log_level_allowed_values_parse()
    ensures
        forall|i: int|
            0 <= i < spec_log_level_property().allowed_values.len()
                ==> #[trigger] spec_parse_log_level(spec_log_level_property().allowed_values[i])
                is Some,
{
    crate::level::lemma_level_name_round_trip(LogLevel::Trace);
    crate::level::lemma_level_name_round_trip(LogLevel::Debug);
    crate::level::lemma_level_name_round_trip(LogLevel::Info);
    crate::level::lemma_level_name_round_trip(LogLevel::Warn);
    crate::level::lemma_level_name_round_trip(LogLevel::Error);
    assert forall|i: int| 0 <= i < spec_log_level_property().allowed_values.len() implies #[trigger]
    spec_parse_log_level(spec_log_level_property().allowed_values[i]) is Some by {
        let values = spec_log_level_property().allowed_values;
        assert(values[0] == spec_level_name(LogLevel::Trace));
        assert(values[1] == spec_level_name(LogLevel::Debug));
        assert(values[2] == spec_level_name(LogLevel::Info));
        assert(values[3] == spec_level_name(LogLevel::Warn));
        assert(values[4] == spec_level_name(LogLevel::Error));
    }
}

/// The level `on_schedule` caches for a given configuration: the resolved
/// `Log Level` value where it names a level, and the documented default
/// `Info` where the value is missing or not a level name.
pub open spec fn spec_scheduled_log_level(configured: Map<Seq<char>, Seq<char>>) -> LogLevel {
    match spec_resolve(configured, spec_log_level_property()) {
        Some(s) => match spec_parse_log_level(s) {
            Some(level) => level,
            None => LogLevel::Info,
        },
        None => LogLevel::Info,
    }
}

/// The routed records after one trigger over a queue `q` and prior records
/// `t`: the first queued flow file, and nothing else, is routed to `success`.
pub open spec fn spec_log_trigger_transferred(
    q: Seq<Seq<char>>,
    t: Seq<(Seq<char>, Seq<char>)>,
) -> Seq<(Seq<char>, Seq<char>)> {
    if q.len() == 0 {
        t
    } else {
        t.push((spec_success_relationship().name, q[0]))
    }
}

/// Logs each incoming flow file's content at the configured level, then
/// passes the flow file to `success`.
pub struct SimpleLogProcessor<L: Logger> {
    pub logger: L,
    pub log_level: LogLevel,
}

impl<L: Logger> Processor<L> for SimpleLogProcessor<L> {
    /// Construction caches nothing: the level starts at its documented
    /// default and is resolved on schedule.
    fn new(logger: L) -> (r: Self)
        ensures
            r.logger == logger,
            r.log_level == LogLevel::Info,
    {
        SimpleLogProcessor { logger, log_level: LogLevel::Info }
    }

    /// Resolves and caches the `Log Level` property, falling back to the
    /// documented default `Info` where it is unset without default or does
    /// not name a level. No flow file is touched.
    fn on_schedule<P: ProcessContext, F: ProcessSessionFactory>(
        &mut self,
        context: &P,
        _session_factory: &mut F,
    )
        ensures
            final(self).log_level == spec_scheduled_log_level(context.configured()),
    {
        self.logger.trace("on_schedule entry");
        let property = log_level_property();
        self.log_level = match resolve_property(context, &property) {
            Some(value) => match parse_log_level(value.as_str()) {
                Some(level) => level,
                None => LogLevel::Info,
            },
            None => LogLevel::Info,
        };
        self.logger.trace("on_schedule exit");
    }

    /// Obtains at most one queued flow file, logs its content at the cached
    /// level, and routes it to `success`; with an empty queue nothing is
    /// routed. The cached level is left as it is.
    fn on_trigger<P: ProcessContext, S: ProcessSession>(&mut self, _context: &P, session: &mut S)
        ensures
            final(self).log_level == old(self).log_level,
            old(session).queued().len() == 0 ==> final(session).queued() == old(session).queued(),
            old(session).queued().len() > 0 ==> final(session).queued() == old(
                session,
            ).queued().drop_first(),
            final(session).transferred() == spec_log_trigger_transferred(
                old(session).queued(),
                old(session).transferred(),
            ),
            old(session).queued().len() > 0 ==> final(self).logger.records().contains(
                (old(self).log_level, old(session).queued()[0]),
            ),
    {
        self.logger.trace("on_trigger entry");
        match session.get() {
            Some(input_ff) => {
                self.logger.trace("Got flowfile");
                match session.read(&input_ff) {
                    Some(content) => {
                        self.logger.log(self.log_level, content.as_str());
                    },
                    None => {
                        proof {
                            assert(false);
                        }
                    },
                }
                session.transfer(input_ff, "success");
            },
            None => {},
        }
        self.logger.trace("on_trigger exit");
        proof {
            if old(session).queued().len() > 0 {
                let logged = (old(self).log_level, old(session).queued()[0]);
                assert(self.logger.records()[old(self).logger.records().len() as int + 2]
                    == logged);
                assert(self.logger.records().contains(logged));
            }
        }
    }
}

/// The definition of the log processor: single-threaded, input allowed, no
/// dynamic capabilities, one `success` relationship, one `Log Level`
/// property.
pub open spec fn spec_simple_log_processor_definition() -> DefinitionModel {
    DefinitionModel {
        type_namespace: "rust_extension"@,
        class_name: "mzink.processors.rust.SimpleLogProcessor"@,
        description: "A rust processor that tests the upcoming C API, trying out most of the features"@,
        is_single_threaded: true,
        input_requirement: ProcessorInputRequirement::Allowed,
        supports_dynamic_properties: false,
        supports_dynamic_relationships: false,
        relationships: seq![spec_success_relationship()],
        properties: seq![spec_log_level_property()],
    }
}

/// Builds the log processor's definition for registration.
pub fn simple_log_processor_definition() -> (r: ProcessorDefinition)
    ensures
        r@ == spec_simple_log_processor_definition(),
{
    let mut definition = ProcessorDefinition::new(
        "rust_extension",
        "mzink.processors.rust.SimpleLogProcessor",
        "A rust processor that tests the upcoming C API, trying out most of the features",
    );
    definition.is_single_threaded = true;
    definition.input_requirement = ProcessorInputRequirement::Allowed;
    definition.supports_dynamic_properties = false;
    definition.supports_dynamic_relationships = false;
    let mut relationships: Vec<crate::definition::Relationship> = Vec::new();
    relationships.push(success_relationship());
    let mut properties: Vec<Property> = Vec::new();
    properties.push(log_level_property());
    let declared = definition.initialize(relationships, properties);
    proof {
        assert(declared is Ok);
        assert(definition@ =~~= spec_simple_log_processor_definition());
    }
    definition
}

/// Every flow file obtained during one trigger of the log processor is
/// routed exactly once — the earlier records are kept, at most one record is
/// appended — and the relationship it is routed to is declared in the
/// processor's definition.
pub proof fn lemma_log_trigger_routes_to_declared(q: Seq<Seq<char>>, t: Seq<(Seq<char>, Seq<char>)>)
    ensures
        q.len() == 0 ==> spec_log_trigger_transferred(q, t) == t,
        forall|i: int| 0 <= i < t.len() ==> spec_log_trigger_transferred(q, t)[i] == t[i],
        q.len() > 0 ==> spec_log_trigger_transferred(q, t).len() == t.len() + 1
            && spec_log_trigger_transferred(q, t)[t.len() as int] == (
        spec_success_relationship().name,
        q[0],
        ) && spec_simple_log_processor_definition().declares_relationship(
            spec_success_relationship().name,
        ),
{
    if q.len() > 0 {
        assert(spec_simple_log_processor_definition().relationships[0].name
            == spec_success_relationship().name);
    }
}

} // verus!
