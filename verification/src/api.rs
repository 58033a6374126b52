//! The contracts between a processor and its host: the leveled logger, the
//! read-only property context, the per-invocation session through which flow
//! files are obtained, created, read, written and routed, the session
//! factory, and the two-phase processor lifecycle itself. Both the real host
//! collaborators and the mock harness implement these traits; everything a
//! processor proves about itself rests on the contracts stated here.

use vstd::prelude::*;
use crate::definition::{Property, PropertyModel};
use crate::level::LogLevel;

verus! {

/// A severity-leveled diagnostic sink. Its model is the sequence of records
/// emitted so far; each call appends exactly one record.
pub trait Logger: Sized {
    /// The records emitted so far, oldest first.
    spec fn records(&self) -> Seq<(LogLevel, Seq<char>)>;

    /// Emits one message at the given level.
    fn log(&mut self, level: LogLevel, message: &str)
        ensures
            final(self).records() == old(self).records().push((level, message@)),
    ;

    /// Emits one message at `Trace` level.
    fn trace(&mut self, message: &str)
        ensures
            final(self).records() == old(self).records().push((LogLevel::Trace, message@)),
    ;

    /// Emits one message at `Debug` level.
    fn debug(&mut self, message: &str)
        ensures
            final(self).records() == old(self).records().push((LogLevel::Debug, message@)),
    ;

    /// Emits one message at `Info` level.
    fn info(&mut self, message: &str)
        ensures
            final(self).records() == old(self).records().push((LogLevel::Info, message@)),
    ;

    /// Emits one message at `Warn` level.
    fn warn(&mut self, message: &str)
        ensures
            final(self).records() == old(self).records().push((LogLevel::Warn, message@)),
    ;

    /// Emits one message at `Error` level.
    fn error(&mut self, message: &str)
        ensures
            final(self).records() == old(self).records().push((LogLevel::Error, message@)),
    ;
}

/// One unit of data moving through the flow. A handle is obtained from a
/// session, is single-use within one trigger, and is consumed by `transfer`,
/// so a transferred handle can never be touched again.
pub trait FlowFile: Sized {
    /// The current content of this flow file.
    spec fn content(&self) -> Seq<char>;
}

/// Read-only access to the property values the host configured for the
/// current execution. The model is the map from property name to configured
/// value; declared defaults are applied on top of it by `resolve_property`.
pub trait ProcessContext: Sized {
    /// The flow-file handle type accepted as expression-language context.
    type FlowFileImpl: FlowFile;

    /// The values the host configured, by property name.
    spec fn configured(&self) -> Map<Seq<char>, Seq<char>>;

    /// The configured value of the named property, or `None` where the host
    /// configured nothing. The optional flow file gives context to the
    /// host's expression-language evaluation; the value returned is already
    /// fully evaluated.
    fn get_property(&self, name: &str, flow_file: Option<&Self::FlowFileImpl>) -> (r: Option<
        String,
    >)
        ensures
            match r {
                Some(v) => self.configured().contains_key(name@) && v@
                    == self.configured()[name@],
                None => !self.configured().contains_key(name@),
            },
    ;
}

/// The per-invocation handle through which a processor enumerates its queued
/// input flow files, creates new ones, reads and writes their content, and
/// finally routes each one to a relationship. Its model is the queue of
/// not-yet-obtained input contents, in arrival order, and the sequence of
/// routed flow files as pairs of relationship name and content, in transfer
/// order. A handle is routed by value, so each one is transferred at most
/// once, and no operation is possible on it afterwards.
pub trait ProcessSession: Sized {
    /// The flow-file handle type this session deals in.
    type FlowFileImpl: FlowFile;

    /// The contents of the input flow files not yet obtained, in arrival
    /// order.
    spec fn queued(&self) -> Seq<Seq<char>>;

    /// The relationship name and content of each transferred flow file, in
    /// transfer order.
    spec fn transferred(&self) -> Seq<(Seq<char>, Seq<char>)>;

    /// Obtains the next queued input flow file, advancing the queue, or
    /// `None` once the queue is drained.
    fn get(&mut self) -> (r: Option<Self::FlowFileImpl>)
        ensures
            final(self).transferred() == old(self).transferred(),
            old(self).queued().len() == 0 ==> r is None && final(self).queued() == old(
                self,
            ).queued(),
            old(self).queued().len() > 0 ==> match r {
                Some(ff) => ff.content() == old(self).queued()[0] && final(self).queued() == old(
                    self,
                ).queued().drop_first(),
                None => false,
            },
    ;

    /// Allocates a brand-new flow file with empty content, or `None` when
    /// the underlying store can allocate nothing this cycle.
    fn create(&mut self) -> (r: Option<Self::FlowFileImpl>)
        ensures
            final(self).queued() == old(self).queued(),
            final(self).transferred() == old(self).transferred(),
            match r {
                Some(ff) => ff.content() == Seq::<char>::empty(),
                None => true,
            },
    ;

    /// Materializes the current content of a flow file. A handle is owned by
    /// the processor until it is transferred, so the content is always
    /// available.
    fn read(&self, flow_file: &Self::FlowFileImpl) -> (r: Option<String>)
        ensures
            match r {
                Some(content) => content@ == flow_file.content(),
                None => false,
            },
    ;

    /// Replaces the content of a flow file. Writes are atomic: afterwards
    /// the content is exactly the given string.
    fn write(&mut self, flow_file: &mut Self::FlowFileImpl, content: &str)
        ensures
            final(self).queued() == old(self).queued(),
            final(self).transferred() == old(self).transferred(),
            final(flow_file).content() == content@,
    ;

    /// Routes a flow file to the named relationship, consuming the handle:
    /// exactly one transferred record is appended, and the handle cannot be
    /// used again.
    fn transfer(&mut self, flow_file: Self::FlowFileImpl, relationship_name: &str)
        ensures
            final(self).queued() == old(self).queued(),
            final(self).transferred() == old(self).transferred().push(
                (relationship_name@, flow_file.content()),
            ),
    ;
}

/// Produces fresh sessions. Used only during the schedule phase, to validate
/// that sessions are available, never to process data.
pub trait ProcessSessionFactory: Sized {
    /// The session type produced.
    type SessionImpl: ProcessSession;

    /// Produces a new session, or `None` when none is available. A fresh
    /// session has routed nothing yet.
    fn create_session(&mut self) -> (r: Option<Self::SessionImpl>)
        ensures
            match r {
                Some(session) => session.transferred() == Seq::<(Seq<char>, Seq<char>)>::empty(),
                None => true,
            },
    ;
}

/// The polymorphic contract every concrete processor type implements:
/// construction with a logger, then a two-phase lifecycle in which the host
/// calls `on_schedule` once per scheduling cycle to let the processor resolve
/// and cache its properties, and `on_trigger` repeatedly, each time with a
/// fresh session, to act on flow files. What each processor does in those
/// phases is stated on its own implementation.
pub trait Processor<L: Logger>: Sized {
    /// Construction only: no property access, no flow-file work.
    fn new(logger: L) -> Self;

    /// Called once before a run of trigger invocations, and again on
    /// reconfiguration: resolves and caches properties, processes no flow
    /// files.
    fn on_schedule<P: ProcessContext, F: ProcessSessionFactory>(
        &mut self,
        context: &P,
        session_factory: &mut F,
    );

    /// Called repeatedly, each time with a fresh session: performs the unit
    /// of work.
    fn on_trigger<P: ProcessContext, S: ProcessSession>(&mut self, context: &P, session: &mut S);
}

/// Resolves one declared property against a context: the host-configured
/// value where one is set, the declared default where not, and `None` only
/// where the property is unset and carries no default.
pub open spec fn spec_resolve(configured: Map<Seq<char>, Seq<char>>, property: PropertyModel) -> Option<
    Seq<char>,
> {
    if configured.contains_key(property.name) {
        Some(configured[property.name])
    } else {
        property.default_value
    }
}

/// Resolves one declared property against a context, applying the
/// resolution order: explicit host-configured value first, the declared
/// default where unset, absence only where neither exists.
pub fn resolve_property<P: ProcessContext>(context: &P, property: &Property) -> (r: Option<String>)
    ensures
        match r {
            Some(v) => spec_resolve(context.configured(), property@) == Some(v@),
            None => spec_resolve(context.configured(), property@) is None,
        },
{
    match context.get_property(property.name.as_str(), None) {
        Some(v) => Some(v),
        None => match &property.default_value {
            Some(d) => Some(d.clone()),
            None => None,
        },
    }
}

/// An unset property with a declared default resolves to exactly that
/// default, required or not.
pub proof fn lemma_unset_property_resolves_to_default(
    configured: Map<Seq<char>, Seq<char>>,
    property: PropertyModel,
)
    requires
        !configured.contains_key(property.name),
        property.default_value is Some,
    ensures
        spec_resolve(configured, property) == property.default_value,
{
}

} // verus!
