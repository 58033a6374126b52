//! The capability declaration of one processor type: its named output
//! relationships, its configurable properties, and its threading and input
//! flags. A definition is built once at registration time and read by the
//! host to validate a flow configuration; declaring two relationships or two
//! properties under one name is rejected outright.

use vstd::prelude::*;
use crate::text::str_eq;

verus! {

/// A named output route a processor can declare. Identity is the name.
pub struct Relationship {
    pub name: String,
    pub description: String,
}

/// The mathematical image of a `Relationship`.
#[verifier::ext_equal]
pub struct RelationshipModel {
    pub name: Seq<char>,
    pub description: Seq<char>,
}

impl View for Relationship {
    type V = RelationshipModel;

    open spec fn view(&self) -> RelationshipModel {
        RelationshipModel { name: self.name@, description: self.description@ }
    }
}

impl Relationship {
    /// Builds a relationship from its name and description.
    pub fn new(name: &str, description: &str) -> (r: Self)
        ensures
            r@ == (RelationshipModel { name: name@, description: description@ }),
    {
        Relationship { name: name.to_owned(), description: description.to_owned() }
    }
}

/// The declared shape of a property value, checked by the host's
/// configuration validation.
#[derive(Clone, Copy, PartialEq, Eq, Structural, Debug)]
pub enum StandardPropertyValidator {
    AlwaysValidValidator,
    BoolValidator,
    IntegerValidator,
}

/// A named, typed, validated configuration slot a processor declares.
/// Identity is the name; the value is resolved per schedule as a string.
pub struct Property {
    pub name: String,
    pub description: String,
    pub is_required: bool,
    pub is_sensitive: bool,
    pub supports_expr_lang: bool,
    pub default_value: Option<String>,
    pub validator: StandardPropertyValidator,
    pub allowed_values: Vec<String>,
}

/// The mathematical image of a `Property`.
#[verifier::ext_equal]
pub struct PropertyModel {
    pub name: Seq<char>,
    pub description: Seq<char>,
    pub is_required: bool,
    pub is_sensitive: bool,
    pub supports_expr_lang: bool,
    pub default_value: Option<Seq<char>>,
    pub validator: StandardPropertyValidator,
    pub allowed_values: Seq<Seq<char>>,
}

impl View for Property {
    type V = PropertyModel;

    open spec fn view(&self) -> PropertyModel {
        PropertyModel {
            name: self.name@,
            description: self.description@,
            is_required: self.is_required,
            is_sensitive: self.is_sensitive,
            supports_expr_lang: self.supports_expr_lang,
            default_value: match self.default_value {
                Some(d) => Some(d@),
                None => None,
            },
            validator: self.validator,
            allowed_values: self.allowed_values@.map_values(|v: String| v@),
        }
    }
}

/// Whether a processor node must, may, or must not be fed input flow files.
#[derive(Clone, Copy, PartialEq, Eq, Structural, Debug)]
pub enum ProcessorInputRequirement {
    Required,
    Allowed,
    Forbidden,
}

/// A declaration failure: two relationships or two properties were declared
/// under one name within a single definition.
#[derive(Clone, Copy, PartialEq, Eq, Structural, Debug)]
pub enum DeclarationError {
    DuplicateRelationshipName,
    DuplicatePropertyName,
}

/// All declared relationship names are mutually distinct.
pub open spec fn unique_relationship_names(rels: Seq<RelationshipModel>) -> bool {
    forall|i: int, j: int| 0 <= i < j < rels.len() ==> rels[i].name != rels[j].name
}

/// All declared property names are mutually distinct.
pub open spec fn unique_property_names(props: Seq<PropertyModel>) -> bool {
    forall|i: int, j: int| 0 <= i < j < props.len() ==> props[i].name != props[j].name
}

/// The aggregate capability declaration of one processor type.
pub struct ProcessorDefinition {
    pub type_namespace: String,
    pub class_name: String,
    pub description: String,
    pub is_single_threaded: bool,
    pub input_requirement: ProcessorInputRequirement,
    pub supports_dynamic_properties: bool,
    pub supports_dynamic_relationships: bool,
    pub relationships: Vec<Relationship>,
    pub properties: Vec<Property>,
}

/// The mathematical image of a `ProcessorDefinition`.
#[verifier::ext_equal]
pub struct DefinitionModel {
    pub type_namespace: Seq<char>,
    pub class_name: Seq<char>,
    pub description: Seq<char>,
    pub is_single_threaded: bool,
    pub input_requirement: ProcessorInputRequirement,
    pub supports_dynamic_properties: bool,
    pub supports_dynamic_relationships: bool,
    pub relationships: Seq<RelationshipModel>,
    pub properties: Seq<PropertyModel>,
}

impl View for ProcessorDefinition {
    type V = DefinitionModel;

    open spec fn view(&self) -> DefinitionModel {
        DefinitionModel {
            type_namespace: self.type_namespace@,
            class_name: self.class_name@,
            description: self.description@,
            is_single_threaded: self.is_single_threaded,
            input_requirement: self.input_requirement,
            supports_dynamic_properties: self.supports_dynamic_properties,
            supports_dynamic_relationships: self.supports_dynamic_relationships,
            relationships: self.relationships@.map_values(|r: Relationship| r@),
            properties: self.properties@.map_values(|p: Property| p@),
        }
    }
}

impl DefinitionModel {
    /// The definition with its declarations replaced by the given ones;
    /// everything else is kept.
    pub open spec fn with_declarations(
        self,
        rels: Seq<RelationshipModel>,
        props: Seq<PropertyModel>,
    ) -> DefinitionModel {
        DefinitionModel { relationships: rels, properties: props, ..self }
    }

    /// The names of the declared relationships.
    pub open spec fn relationship_names(self) -> Seq<Seq<char>> {
        self.relationships.map_values(|r: RelationshipModel| r.name)
    }

    /// Whether a relationship of the given name is declared.
    pub open spec fn declares_relationship(self, name: Seq<char>) -> bool {
        exists|i: int| 0 <= i < self.relationships.len() && self.relationships[i].name == name
    }
}

/// A freshly constructed definition: the given identity, no declarations,
/// and the least restrictive flags.
pub open spec fn spec_new_definition(
    type_namespace: Seq<char>,
    class_name: Seq<char>,
    description: Seq<char>,
) -> DefinitionModel {
    DefinitionModel {
        type_namespace: type_namespace,
        class_name: class_name,
        description: description,
        is_single_threaded: false,
        input_requirement: ProcessorInputRequirement::Allowed,
        supports_dynamic_properties: false,
        supports_dynamic_relationships: false,
        relationships: Seq::empty(),
        properties: Seq::empty(),
    }
}

impl ProcessorDefinition {
    /// Builds an empty definition carrying the processor type's identity.
    pub fn new(type_namespace: &str, class_name: &str, description: &str) -> (r: Self)
        ensures
            r@ == spec_new_definition(type_namespace@, class_name@, description@),
    {
        let r = ProcessorDefinition {
            type_namespace: type_namespace.to_owned(),
            class_name: class_name.to_owned(),
            description: description.to_owned(),
            is_single_threaded: false,
            input_requirement: ProcessorInputRequirement::Allowed,
            supports_dynamic_properties: false,
            supports_dynamic_relationships: false,
            relationships: Vec::new(),
            properties: Vec::new(),
        };
        proof {
            assert(r@ =~~= spec_new_definition(type_namespace@, class_name@, description@));
        }
        r
    }

    /// Replaces the declared relationships. Fails, leaving the definition
    /// unchanged, exactly when two of the given relationships share a name.
    pub fn set_supported_relationships(&mut self, relationships: Vec<Relationship>) -> (r: Result<
        (),
        DeclarationError,
    >)
        ensures
            unique_relationship_names(relationships@.map_values(|x: Relationship| x@)) <==> r
                is Ok,
            r is Ok ==> final(self)@ == old(self)@.with_declarations(
                relationships@.map_values(|x: Relationship| x@),
                old(self)@.properties,
            ),
            r is Err ==> r == Err::<(), DeclarationError>(
                DeclarationError::DuplicateRelationshipName,
            ) && final(self)@ == old(self)@,
    {
        if !relationship_names_unique(&relationships) {
            return Err(DeclarationError::DuplicateRelationshipName);
        }
        self.relationships = relationships;
        proof {
            assert(final(self)@ =~~= old(self)@.with_declarations(
                relationships@.map_values(|x: Relationship| x@),
                old(self)@.properties,
            ));
        }
        Ok(())
    }

    /// Replaces the declared properties. Fails, leaving the definition
    /// unchanged, exactly when two of the given properties share a name.
    pub fn set_supported_properties(&mut self, properties: Vec<Property>) -> (r: Result<
        (),
        DeclarationError,
    >)
        ensures
            unique_property_names(properties@.map_values(|x: Property| x@)) <==> r is Ok,
            r is Ok ==> final(self)@ == old(self)@.with_declarations(
                old(self)@.relationships,
                properties@.map_values(|x: Property| x@),
            ),
            r is Err ==> r == Err::<(), DeclarationError>(DeclarationError::DuplicatePropertyName)
                && final(self)@ == old(self)@,
    {
        if !property_names_unique(&properties) {
            return Err(DeclarationError::DuplicatePropertyName);
        }
        self.properties = properties;
        proof {
            assert(final(self)@ =~~= old(self)@.with_declarations(
                old(self)@.relationships,
                properties@.map_values(|x: Property| x@),
            ));
        }
        Ok(())
    }

    /// Declares relationships and properties in one step, overwriting any
    /// earlier declarations. Fails, leaving the definition unchanged, exactly
    /// when the given relationships or the given properties repeat a name;
    /// a repeated relationship name is reported first.
    pub fn initialize(
        &mut self,
        relationships: Vec<Relationship>,
        properties: Vec<Property>,
    ) -> (r: Result<(), DeclarationError>)
        ensures
            r is Ok <==> unique_relationship_names(
                relationships@.map_values(|x: Relationship| x@),
            ) && unique_property_names(properties@.map_values(|x: Property| x@)),
            r is Ok ==> final(self)@ == old(self)@.with_declarations(
                relationships@.map_values(|x: Relationship| x@),
                properties@.map_values(|x: Property| x@),
            ),
            r is Err ==> final(self)@ == old(self)@,
            !unique_relationship_names(relationships@.map_values(|x: Relationship| x@)) ==> r
                == Err::<(), DeclarationError>(DeclarationError::DuplicateRelationshipName),
            unique_relationship_names(relationships@.map_values(|x: Relationship| x@))
                && !unique_property_names(properties@.map_values(|x: Property| x@)) ==> r == Err::<
                (),
                DeclarationError,
            >(DeclarationError::DuplicatePropertyName),
    {
        if !relationship_names_unique(&relationships) {
            return Err(DeclarationError::DuplicateRelationshipName);
        }
        if !property_names_unique(&properties) {
            return Err(DeclarationError::DuplicatePropertyName);
        }
        self.relationships = relationships;
        self.properties = properties;
        proof {
            assert(final(self)@ =~~= old(self)@.with_declarations(
                relationships@.map_values(|x: Relationship| x@),
                properties@.map_values(|x: Property| x@),
            ));
        }
        Ok(())
    }

    /// Whether a relationship of the given name is declared.
    pub fn declares_relationship(&self, name: &str) -> (r: bool)
        ensures
            r == self@.declares_relationship(name@),
    {
        let mut i: usize = 0;
        while i < self.relationships.len()
            invariant
                0 <= i <= self.relationships.len(),
                forall|k: int| 0 <= k < i ==> self@.relationships[k].name != name@,
            decreases self.relationships.len() - i,
        {
            if str_eq(self.relationships[i].name.as_str(), name) {
                assert(self@.relationships[i as int].name == name@);
                return true;
            }
            i += 1;
        }
        false
    }
}

/// Whether the given relationships carry mutually distinct names.
fn relationship_names_unique(rels: &Vec<Relationship>) -> (r: bool)
    ensures
        r == unique_relationship_names(rels@.map_values(|x: Relationship| x@)),
{
    let ghost models = rels@.map_values(|x: Relationship| x@);
    let mut i: usize = 0;
    while i < rels.len()
        invariant
            models == rels@.map_values(|x: Relationship| x@),
            0 <= i <= rels.len(),
            forall|p: int, q: int| 0 <= p < q < i ==> models[p].name != models[q].name,
        decreases rels.len() - i,
    {
        let mut j: usize = 0;
        while j < i
            invariant
                models == rels@.map_values(|x: Relationship| x@),
                0 <= j <= i < rels.len(),
                forall|q: int| 0 <= q < j ==> models[q].name != models[i as int].name,
            decreases i - j,
        {
            if str_eq(rels[j].name.as_str(), rels[i].name.as_str()) {
                assert(models[j as int].name == models[i as int].name);
                return false;
            }
            j += 1;
        }
        i += 1;
    }
    true
}

/// Whether the given properties carry mutually distinct names.
fn property_names_unique(props: &Vec<Property>) -> (r: bool)
    ensures
        r == unique_property_names(props@.map_values(|x: Property| x@)),
{
    let ghost models = props@.map_values(|x: Property| x@);
    let mut i: usize = 0;
    while i < props.len()
        invariant
            models == props@.map_values(|x: Property| x@),
            0 <= i <= props.len(),
            forall|p: int, q: int| 0 <= p < q < i ==> models[p].name != models[q].name,
        decreases props.len() - i,
    {
        let mut j: usize = 0;
        while j < i
            invariant
                models == props@.map_values(|x: Property| x@),
                0 <= j <= i < props.len(),
                forall|q: int| 0 <= q < j ==> models[q].name != models[i as int].name,
            decreases i - j,
        {
            if str_eq(props[j].name.as_str(), props[i].name.as_str()) {
                assert(models[j as int].name == models[i as int].name);
                return false;
            }
            j += 1;
        }
        i += 1;
    }
    true
}

/// Declaring the same relationships and properties a second time changes
/// nothing: `initialize` overwrites declarations, it does not merge them, so
/// initializing twice with equal declarations yields an identical definition.
pub proof fn lemma_initialize_idempotent(
    base: DefinitionModel,
    rels: Seq<RelationshipModel>,
    props: Seq<PropertyModel>,
)
    ensures
        base.with_declarations(rels, props).with_declarations(rels, props)
            == base.with_declarations(rels, props),
{
    assert(base.with_declarations(rels, props).with_declarations(rels, props)
        =~~= base.with_declarations(rels, props));
}

} // verus!
