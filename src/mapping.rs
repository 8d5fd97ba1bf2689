//! Document schemas and the JSON mapping documents they render to.
use vstd::prelude::*;
use crate::text::{escape_chars, json_string_of, push_quoted, MappingError};
use crate::values::KnobValue;

verus! {

broadcast use vstd::std_specs::vec::group_vec_axioms;

/// The semantic type of a leaf field.
#[derive(Debug, Clone, Copy, PartialEq, Eq, Structural)]
pub enum DataType {
    Integer,
    Long,
    Short,
    Byte,
    Float,
    Double,
    Keyword,
    Text,
    Boolean,
    Ip,
    Date,
    GeoPoint,
    GeoShape,
}

impl DataType {
    /// The discriminator written under the `type` key.
    pub open spec fn spec_name(&self) -> Seq<char> {
        match self {
            DataType::Integer => "integer"@,
            DataType::Long => "long"@,
            DataType::Short => "short"@,
            DataType::Byte => "byte"@,
            DataType::Float => "float"@,
            DataType::Double => "double"@,
            DataType::Keyword => "keyword"@,
            DataType::Text => "text"@,
            DataType::Boolean => "boolean"@,
            DataType::Ip => "ip"@,
            DataType::Date => "date"@,
            DataType::GeoPoint => "geo_point"@,
            DataType::GeoShape => "geo_shape"@,
        }
    }

    /// The discriminator written under the `type` key.
    pub fn name(&self) -> (r: &'static str)
        ensures
            r@ == self.spec_name(),
    {
        match self {
            DataType::Integer => "integer",
            DataType::Long => "long",
            DataType::Short => "short",
            DataType::Byte => "byte",
            DataType::Float => "float",
            DataType::Double => "double",
            DataType::Keyword => "keyword",
            DataType::Text => "text",
            DataType::Boolean => "boolean",
            DataType::Ip => "ip",
            DataType::Date => "date",
            DataType::GeoPoint => "geo_point",
            DataType::GeoShape => "geo_shape",
        }
    }
}

/// A configuration knob that is set: its key and its value.
#[derive(Debug, Clone, PartialEq, Eq)]
pub struct Knob {
    pub name: String,
    pub value: KnobValue,
}

/// How one field is mapped: a leaf of a semantic type with the knobs that
/// are set, in order, or a nested schema.
#[derive(Debug)]
pub enum FieldMapping {
    Leaf { data_type: DataType, knobs: Vec<Knob> },
    Nested { schema: Schema },
}

/// A named field of a schema.
#[derive(Debug)]
pub struct Property {
    pub name: String,
    pub mapping: FieldMapping,
}

/// A document schema: its fields, in order.
#[derive(Debug)]
pub struct Schema {
    pub fields: Vec<Property>,
}

/// No two fields of the sequence share a name.
pub open spec fn unique_names(ps: Seq<Property>) -> bool {
    forall|i: int, j: int|
        0 <= i < ps.len() && 0 <= j < ps.len() && i != j ==> ps[i].name@ != ps[j].name@
}

/// The knobs of a leaf have distinct keys, and none of them is `type`.
pub open spec fn knobs_wf(ks: Seq<Knob>) -> bool {
    &&& forall|i: int| 0 <= i < ks.len() ==> ks[i].name@ != "type"@
    &&& forall|i: int, j: int|
        0 <= i < ks.len() && 0 <= j < ks.len() && i != j ==> ks[i].name@ != ks[j].name@
}

/// A field is well formed: a leaf's knobs are, and a nested schema is.
pub open spec fn field_wf(m: FieldMapping) -> bool
    decreases m,
{
    match m {
        FieldMapping::Leaf { knobs, .. } => knobs_wf(knobs@),
        FieldMapping::Nested { schema } => properties_wf(schema.fields@),
    }
}

/// The fields have distinct names, and each field is well formed.
pub open spec fn properties_wf(ps: Seq<Property>) -> bool
    decreases ps,
{
    &&& unique_names(ps)
    &&& forall|i: int| 0 <= i < ps.len() ==> field_wf(#[trigger] ps[i].mapping)
}

/// A schema is well formed: its fields have distinct names, at every level
/// of nesting, and no leaf repeats a knob or sets `type`.
pub open spec fn schema_wf(s: Schema) -> bool {
    properties_wf(s.fields@)
}

/// Some field of the sequence is called `name`.
pub open spec fn has_name(ps: Seq<Property>, name: Seq<char>) -> bool {
    exists|i: int| 0 <= i < ps.len() && ps[i].name@ == name
}

impl FieldMapping {
    /// A leaf of the given type with every knob unset.
    pub fn leaf(data_type: DataType) -> (r: FieldMapping)
        ensures
            r matches FieldMapping::Leaf { data_type: t, knobs } && t == data_type && knobs@.len()
                == 0,
            field_wf(r),
    {
        FieldMapping::Leaf { data_type, knobs: Vec::new() }
    }

    /// A field whose value is itself a document of the given schema.
    pub fn nested(schema: Schema) -> (r: FieldMapping)
        ensures
            r == (FieldMapping::Nested { schema }),
            field_wf(r) == schema_wf(schema),
    {
        FieldMapping::Nested { schema }
    }
}

impl Schema {
    /// The schema with no fields.
    pub fn new() -> (r: Schema)
        ensures
            r.fields@.len() == 0,
            schema_wf(r),
    {
        Schema { fields: Vec::new() }
    }

    /// Whether a field of this schema is called `name`.
    pub fn has_field(&self, name: &str) -> (r: bool)
        ensures
            r == has_name(self.fields@, name@),
    {
        let wanted = String::from_str(name);
        let mut i: usize = 0;
        while i < self.fields.len()
            invariant
                i <= self.fields@.len(),
                wanted@ == name@,
                forall|j: int| 0 <= j < i ==> self.fields@[j].name@ != name@,
            decreases self.fields@.len() - i,
        {
            if self.fields[i].name == wanted {
                return true;
            }
            i = i + 1;
        }
        false
    }

    /// Adds a field after the existing ones. A name that the schema already
    /// holds is refused, and the schema is left as it was.
    pub fn add_field(&mut self, name: String, mapping: FieldMapping) -> (r: Result<
        (),
        MappingError,
    >)
        ensures
            r is Err <==> has_name(old(self).fields@, name@),
            r is Err ==> r->Err_0 == MappingError::DuplicateField && final(self).fields@ == old(
                self,
            ).fields@,
            r is Ok ==> final(self).fields@ == old(self).fields@.push(Property { name, mapping }),
            unique_names(old(self).fields@) ==> unique_names(final(self).fields@),
            schema_wf(*old(self)) && field_wf(mapping) ==> schema_wf(*final(self)),
    {
        if self.has_field(name.as_str()) {
            return Err(MappingError::DuplicateField);
        }
        self.fields.push(Property { name, mapping });
        proof {
            let ps = self.fields@;
            if schema_wf(*old(self)) && field_wf(mapping) {
                assert forall|i: int| 0 <= i < ps.len() implies field_wf(#[trigger] ps[i].mapping) by {
                    if i < ps.len() - 1 {
                        assert(ps[i] == old(self).fields@[i]);
                    }
                }
            }
        }
        Ok(())
    }
}

/// The first member of every mapping object: `"type":<discriminator>`.
pub open spec fn type_member(discriminator: Seq<char>) -> Seq<char> {
    json_string_of("type"@) + seq![':'] + json_string_of(discriminator)
}

/// `"<key>":<value>` for one set knob.
pub open spec fn knob_text(k: Knob) -> Seq<char> {
    json_string_of(k.name@) + seq![':'] + k.value.text()
}

/// Each knob in order, each preceded by a comma.
pub open spec fn knobs_text(ks: Seq<Knob>) -> Seq<char>
    decreases ks.len(),
{
    if ks.len() == 0 {
        Seq::empty()
    } else {
        knobs_text(ks.drop_last()) + seq![','] + knob_text(ks.last())
    }
}

/// The `type` discriminator of a field: its semantic type, or `nested`.
pub open spec fn discriminator(m: FieldMapping) -> Seq<char> {
    match m {
        FieldMapping::Leaf { data_type, .. } => data_type.spec_name(),
        FieldMapping::Nested { .. } => "nested"@,
    }
}

/// The JSON object of a field: `type` first, then for a leaf each set knob,
/// for a nested schema its `properties`.
pub open spec fn field_text(m: FieldMapping) -> Seq<char>
    decreases m,
{
    match m {
        FieldMapping::Leaf { data_type, knobs } => seq!['{'] + type_member(data_type.spec_name())
            + knobs_text(knobs@) + seq!['}'],
        FieldMapping::Nested { schema } => seq!['{'] + type_member("nested"@) + seq![',']
            + json_string_of("properties"@) + seq![':'] + seq!['{']
            + properties_body(schema.fields@) + seq!['}'] + seq!['}'],
    }
}

/// `"<name>":<field object>` for one property.
pub open spec fn property_text(p: Property) -> Seq<char>
    decreases p,
{
    json_string_of(p.name@) + seq![':'] + field_text(p.mapping)
}

/// The properties in order, separated by commas.
pub open spec fn properties_body(ps: Seq<Property>) -> Seq<char>
    decreases ps,
{
    if ps.len() == 0 {
        Seq::empty()
    } else {
        let sep = if ps.len() == 1 { Seq::empty() } else { seq![','] };
        properties_body(ps.drop_last()) + sep + property_text(ps.last())
    }
}

/// The JSON object that maps each field name to its field object.
pub open spec fn properties_text(ps: Seq<Property>) -> Seq<char> {
    seq!['{'] + properties_body(ps) + seq!['}']
}

/// The mapping document of a root schema: `{"properties":{...}}`.
pub open spec fn schema_text(s: Schema) -> Seq<char> {
    seq!['{'] + json_string_of("properties"@) + seq![':'] + properties_text(s.fields@) + seq!['}']
}

/// Appends a literal piece of punctuation to `out`.
fn push_lit(out: &mut String, lit: &str)
    ensures
        final(out)@ == old(out)@ + lit@,
{
    out.append(lit);
}

/// Appends `"type":<discriminator>` to `out`.
fn write_type_member(out: &mut String, discriminator: &str) -> (r: Result<(), MappingError>)
    ensures
        r is Ok,
        final(out)@ == old(out)@ + type_member(discriminator@),
{
    proof {
        reveal_strlit(":");
    }
    match push_quoted(out, "type") {
        Ok(()) => {},
        Err(e) => return Err(e),
    }
    push_lit(out, ":");
    match push_quoted(out, discriminator) {
        Ok(()) => {},
        Err(e) => return Err(e),
    }
    assert(out@ =~= old(out)@ + type_member(discriminator@));
    Ok(())
}

/// Appends each knob to `out`, each preceded by a comma.
fn write_knobs(out: &mut String, ks: &Vec<Knob>) -> (r: Result<(), MappingError>)
    requires
        knobs_wf(ks@),
    ensures
        r is Ok,
        final(out)@ == old(out)@ + knobs_text(ks@),
{
    let ghost start = out@;
    let mut i: usize = 0;
    while i < ks.len()
        invariant
            i <= ks@.len(),
            out@ == start + knobs_text(ks@.subrange(0, i as int)),
        decreases ks@.len() - i,
    {
        proof {
            reveal_strlit(",");
            reveal_strlit(":");
            assert(ks@.subrange(0, i + 1).drop_last() =~= ks@.subrange(0, i as int));
        }
        push_lit(out, ",");
        match push_quoted(out, ks[i].name.as_str()) {
            Ok(()) => {},
            Err(e) => return Err(e),
        }
        push_lit(out, ":");
        match ks[i].value.write(out) {
            Ok(()) => {},
            Err(e) => return Err(e),
        }
        i = i + 1;
        assert(out@ =~= start + knobs_text(ks@.subrange(0, i as int)));
    }
    assert(ks@.subrange(0, i as int) =~= ks@);
    Ok(())
}

/// Appends the JSON object of a field to `out`.
pub fn write_field(out: &mut String, m: &FieldMapping) -> (r: Result<(), MappingError>)
    requires
        field_wf(*m),
    ensures
        r is Ok,
        final(out)@ == old(out)@ + field_text(*m),
    decreases m,
{
    proof {
        reveal_strlit("{");
        reveal_strlit("}");
        reveal_strlit(",");
        reveal_strlit(":");
    }
    push_lit(out, "{");
    match m {
        FieldMapping::Leaf { data_type, knobs } => {
            match write_type_member(out, data_type.name()) {
                Ok(()) => {},
                Err(e) => return Err(e),
            }
            match write_knobs(out, knobs) {
                Ok(()) => {},
                Err(e) => return Err(e),
            }
        },
        FieldMapping::Nested { schema } => {
            match write_type_member(out, "nested") {
                Ok(()) => {},
                Err(e) => return Err(e),
            }
            push_lit(out, ",");
            match push_quoted(out, "properties") {
                Ok(()) => {},
                Err(e) => return Err(e),
            }
            push_lit(out, ":");
            match write_properties(out, &schema.fields) {
                Ok(()) => {},
                Err(e) => return Err(e),
            }
        },
    }
    push_lit(out, "}");
    assert(out@ =~= old(out)@ + field_text(*m));
    Ok(())
}

/// Appends the JSON object that maps each field name to its field object.
pub fn write_properties(out: &mut String, ps: &Vec<Property>) -> (r: Result<(), MappingError>)
    requires
        properties_wf(ps@),
    ensures
        r is Ok,
        final(out)@ == old(out)@ + properties_text(ps@),
    decreases ps,
{
    proof {
        reveal_strlit("{");
        reveal_strlit("}");
    }
    push_lit(out, "{");
    let ghost start = out@;
    let mut i: usize = 0;
    while i < ps.len()
        invariant
            i <= ps@.len(),
            properties_wf(ps@),
            out@ == start + properties_body(ps@.subrange(0, i as int)),
        decreases ps@.len() - i,
    {
        proof {
            reveal_strlit(",");
            reveal_strlit(":");
            assert(ps@.subrange(0, i + 1).drop_last() =~= ps@.subrange(0, i as int));
        }
        if i > 0 {
            push_lit(out, ",");
        }
        match push_quoted(out, ps[i].name.as_str()) {
            Ok(()) => {},
            Err(e) => return Err(e),
        }
        push_lit(out, ":");
        assert(field_wf(ps@[i as int].mapping));
        match write_field(out, &ps[i].mapping) {
            Ok(()) => {},
            Err(e) => return Err(e),
        }
        proof {
            let sub = ps@.subrange(0, i + 1);
            assert(sub.last() == ps@[i as int]);
            assert(property_text(ps@[i as int]) == json_string_of(ps@[i as int].name@) + seq![':']
                + field_text(ps@[i as int].mapping));
            if i == 0 {
                assert(properties_body(sub.drop_last()) == Seq::<char>::empty());
            }
        }
        i = i + 1;
        assert(out@ =~= start + properties_body(ps@.subrange(0, i as int)));
    }
    assert(ps@.subrange(0, i as int) =~= ps@);
    push_lit(out, "}");
    assert(out@ =~= old(out)@ + properties_text(ps@));
    Ok(())
}

/// Renders schemas and fields as JSON mapping documents.
pub struct TypeMapper;

impl TypeMapper {
    /// The mapping document of a root schema, `{"properties":{...}}`.
    pub fn to_string(schema: &Schema) -> (r: Result<String, MappingError>)
        requires
            schema_wf(*schema),
        ensures
            r is Ok,
            r->Ok_0@ == schema_text(*schema),
    {
        proof {
            reveal_strlit("{");
            reveal_strlit("}");
            reveal_strlit(":");
        }
        let mut out = String::new();
        push_lit(&mut out, "{");
        match push_quoted(&mut out, "properties") {
            Ok(()) => {},
            Err(e) => return Err(e),
        }
        push_lit(&mut out, ":");
        match write_properties(&mut out, &schema.fields) {
            Ok(()) => {},
            Err(e) => return Err(e),
        }
        push_lit(&mut out, "}");
        assert(out@ =~= schema_text(*schema));
        Ok(out)
    }

    /// The JSON object of a single field.
    pub fn field_to_string(m: &FieldMapping) -> (r: Result<String, MappingError>)
        requires
            field_wf(*m),
        ensures
            r is Ok,
            r->Ok_0@ == field_text(*m),
    {
        let mut out = String::new();
        match write_field(&mut out, m) {
            Ok(()) => {},
            Err(e) => return Err(e),
        }
        assert(out@ =~= field_text(*m));
        Ok(out)
    }
}

/// The object of every field opens with its `type` member: for a leaf its
/// semantic type, for a nested schema `nested`.
pub proof fn lemma_type_member_first(m: FieldMapping)
    ensures
        (seq!['{'] + type_member(discriminator(m))).is_prefix_of(field_text(m)),
{
    let p = seq!['{'] + type_member(discriminator(m));
    assert(field_text(m).subrange(0, p.len() as int) =~= p);
}

/// Rendering the same schema twice succeeds both times with the same
/// text, and likewise for a single field.
pub proof fn lemma_rendering_deterministic(
    s: Schema,
    r1: Result<String, MappingError>,
    r2: Result<String, MappingError>,
    m: FieldMapping,
    f1: Result<String, MappingError>,
    f2: Result<String, MappingError>,
)
    requires
        call_ensures(TypeMapper::to_string, (&s,), r1),
        call_ensures(TypeMapper::to_string, (&s,), r2),
        call_ensures(TypeMapper::field_to_string, (&m,), f1),
        call_ensures(TypeMapper::field_to_string, (&m,), f2),
    ensures
        r1 is Ok && r2 is Ok && r1->Ok_0@ == r2->Ok_0@,
        f1 is Ok && f2 is Ok && f1->Ok_0@ == f2->Ok_0@,
{
}

/// A field holding a schema renders as `{"type":"nested","properties":P}`,
/// where `P` is the `properties` object of the schema rendered on its own.
pub proof fn lemma_nested_properties(s: Schema)
    ensures
        field_text(FieldMapping::Nested { schema: s }) == seq!['{'] + type_member("nested"@) + seq![
            ',',
        ] + json_string_of("properties"@) + seq![':'] + properties_text(s.fields@) + seq!['}'],
        schema_text(s) == seq!['{'] + json_string_of("properties"@) + seq![':'] + properties_text(
            s.fields@,
        ) + seq!['}'],
{
    assert(field_text(FieldMapping::Nested { schema: s }) =~= seq!['{'] + type_member("nested"@)
        + seq![','] + json_string_of("properties"@) + seq![':'] + properties_text(s.fields@) + seq![
        '}',
    ]);
}

/// A schema without fields renders as `{"properties":{}}`.
pub proof fn lemma_empty_schema(s: Schema)
    requires
        s.fields@.len() == 0,
    ensures
        schema_text(s) == "{\"properties\":{}}"@,
{
    reveal_strlit("properties");
    reveal_strlit("{\"properties\":{}}");
    reveal_with_fuel(escape_chars, 11);
    assert(escape_chars("properties"@) =~= "properties"@);
    assert(properties_body(s.fields@) == Seq::<char>::empty());
    assert(schema_text(s) =~= "{\"properties\":{}}"@);
}

} // verus!
