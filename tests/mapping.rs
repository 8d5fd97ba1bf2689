use elastic_types::ip::{ip_field, DefaultIpMapping, IpConfig, IpMapping};
use elastic_types::mapping::{DataType, FieldMapping, Knob, Schema, TypeMapper};
use elastic_types::text::MappingError;
use elastic_types::values::{Decimal, Ipv4, KnobValue};

struct BoostedIpMapping;

impl IpMapping for BoostedIpMapping {
    fn boost() -> Option<Decimal> {
        Some(Decimal::new(false, 15, 1))
    }
}

struct FullIpMapping;

impl IpMapping for FullIpMapping {
    fn boost() -> Option<Decimal> {
        Some(Decimal::new(false, 2, 0))
    }
    fn doc_values() -> Option<bool> {
        Some(true)
    }
    fn index() -> Option<bool> {
        Some(false)
    }
    fn null_value() -> Option<Ipv4> {
        Some(Ipv4::new(127, 0, 0, 1))
    }
    fn store() -> Option<bool> {
        Some(true)
    }
}

fn schema_of(fields: Vec<(&str, FieldMapping)>) -> Schema {
    let mut s = Schema::new();
    for (name, m) in fields {
        s.add_field(name.to_string(), m).unwrap();
    }
    s
}

#[test]
fn boost_only_ip_mapping() {
    let m = ip_field::<BoostedIpMapping>();
    assert_eq!(TypeMapper::field_to_string(&m).unwrap(), r#"{"type":"ip","boost":1.5}"#);
}

#[test]
fn default_ip_mapping_has_only_type() {
    let m = ip_field::<DefaultIpMapping>();
    assert_eq!(TypeMapper::field_to_string(&m).unwrap(), r#"{"type":"ip"}"#);
}

#[test]
fn every_ip_knob_in_declared_order() {
    let m = ip_field::<FullIpMapping>();
    assert_eq!(
        TypeMapper::field_to_string(&m).unwrap(),
        r#"{"type":"ip","boost":2,"doc_values":true,"index":false,"store":true,"null_value":"127.0.0.1"}"#
    );
}

#[test]
fn unset_knobs_are_absent() {
    let mut c = IpConfig::unset();
    c.store = Some(false);
    let out = TypeMapper::field_to_string(&c.to_mapping()).unwrap();
    assert_eq!(out, r#"{"type":"ip","store":false}"#);
    assert!(!out.contains("boost"));
    assert!(!out.contains("null_value"));
}

#[test]
fn empty_schema() {
    let s = Schema::new();
    assert_eq!(TypeMapper::to_string(&s).unwrap(), r#"{"properties":{}}"#);
}

#[test]
fn root_schema_with_default_fields() {
    let s = schema_of(vec![
        ("id", FieldMapping::leaf(DataType::Integer)),
        ("title", FieldMapping::leaf(DataType::Text)),
    ]);
    assert_eq!(
        TypeMapper::to_string(&s).unwrap(),
        r#"{"properties":{"id":{"type":"integer"},"title":{"type":"text"}}}"#
    );
}

#[test]
fn nested_schema_field() {
    let geoip = schema_of(vec![
        ("ip", ip_field::<DefaultIpMapping>()),
        ("loc", FieldMapping::leaf(DataType::GeoPoint)),
    ]);
    let inner = TypeMapper::to_string(&geoip).unwrap();
    let s = schema_of(vec![("geoip", FieldMapping::nested(geoip))]);
    let out = TypeMapper::to_string(&s).unwrap();
    assert!(out.contains(
        r#""geoip":{"type":"nested","properties":{"ip":{"type":"ip"},"loc":{"type":"geo_point"}}}"#
    ));
    assert_eq!(
        out,
        r#"{"properties":{"geoip":{"type":"nested","properties":{"ip":{"type":"ip"},"loc":{"type":"geo_point"}}}}}"#
    );
    let inner_props = &inner[r#"{"properties":"#.len()..inner.len() - 1];
    assert!(out.contains(inner_props));
}

#[test]
fn serializing_twice_gives_the_same_text() {
    let s = schema_of(vec![
        ("id", FieldMapping::leaf(DataType::Long)),
        ("when", FieldMapping::leaf(DataType::Date)),
    ]);
    let a = TypeMapper::to_string(&s).unwrap();
    let b = TypeMapper::to_string(&s).unwrap();
    assert_eq!(a, b);
}

#[test]
fn duplicate_field_is_refused() {
    let mut s = Schema::new();
    assert_eq!(s.add_field("id".to_string(), FieldMapping::leaf(DataType::Integer)), Ok(()));
    assert_eq!(
        s.add_field("id".to_string(), FieldMapping::leaf(DataType::Keyword)),
        Err(MappingError::DuplicateField)
    );
    assert_eq!(s.fields.len(), 1);
    assert!(s.has_field("id"));
    assert!(!s.has_field("name"));
}

#[test]
fn field_names_are_escaped() {
    let s = schema_of(vec![("say \"hi\"", FieldMapping::leaf(DataType::Boolean))]);
    assert_eq!(
        TypeMapper::to_string(&s).unwrap(),
        r#"{"properties":{"say \"hi\"":{"type":"boolean"}}}"#
    );
}

#[test]
fn every_type_discriminator() {
    let cases = [
        (DataType::Integer, "integer"),
        (DataType::Long, "long"),
        (DataType::Short, "short"),
        (DataType::Byte, "byte"),
        (DataType::Float, "float"),
        (DataType::Double, "double"),
        (DataType::Keyword, "keyword"),
        (DataType::Text, "text"),
        (DataType::Boolean, "boolean"),
        (DataType::Ip, "ip"),
        (DataType::Date, "date"),
        (DataType::GeoPoint, "geo_point"),
        (DataType::GeoShape, "geo_shape"),
    ];
    for (t, name) in cases {
        assert_eq!(t.name(), name);
        let out = TypeMapper::field_to_string(&FieldMapping::leaf(t)).unwrap();
        assert_eq!(out, format!("{{\"type\":\"{}\"}}", name));
    }
}

#[test]
fn custom_knobs_keep_their_order() {
    let m = FieldMapping::Leaf {
        data_type: DataType::Text,
        knobs: vec![
            Knob { name: "analyzer".to_string(), value: KnobValue::Text("content_text".to_string()) },
            Knob { name: "boost".to_string(), value: KnobValue::Number(Decimal::new(true, 5, 3)) },
        ],
    };
    assert_eq!(
        TypeMapper::field_to_string(&m).unwrap(),
        r#"{"type":"text","analyzer":"content_text","boost":-0.005}"#
    );
}

#[test]
fn decimal_text() {
    let cases = [
        (false, 15, 1, "1.5"),
        (false, 10, 1, "1.0"),
        (false, 0, 0, "0"),
        (false, 0, 2, "0.00"),
        (true, 125, 2, "-1.25"),
        (false, 7, 3, "0.007"),
        (false, 1234, 0, "1234"),
        (false, u64::MAX, 0, "18446744073709551615"),
        (false, u64::MAX, 25, "0.0000018446744073709551615"),
    ];
    for (neg, m, s, text) in cases {
        let mut out = String::new();
        Decimal::new(neg, m, s).write(&mut out);
        assert_eq!(out, text);
    }
}

#[test]
fn ipv4_dotted() {
    assert_eq!(Ipv4::new(192, 168, 0, 255).to_dotted(), "192.168.0.255");
    assert_eq!(Ipv4::new(0, 0, 0, 0).to_dotted(), "0.0.0.0");
}

#[test]
fn knob_values_as_json() {
    let mut out = String::new();
    KnobValue::Bool(true).write(&mut out).unwrap();
    KnobValue::Bool(false).write(&mut out).unwrap();
    KnobValue::Text("a\nb".to_string()).write(&mut out).unwrap();
    KnobValue::Ip(Ipv4::new(10, 0, 0, 1)).write(&mut out).unwrap();
    assert_eq!(out, "truefalse\"a\\nb\"\"10.0.0.1\"");
}

struct StoredOffIpMapping;

impl IpMapping for StoredOffIpMapping {
    fn boost() -> Option<Decimal> {
        Some(Decimal::new(false, 20, 1))
    }
    fn doc_values() -> Option<bool> {
        Some(true)
    }
    fn index() -> Option<bool> {
        Some(false)
    }
    fn null_value() -> Option<Ipv4> {
        Some(Ipv4::new(127, 0, 0, 1))
    }
    fn store() -> Option<bool> {
        Some(false)
    }
}

#[test]
fn knob_equal_to_default_is_still_written() {
    let m = ip_field::<StoredOffIpMapping>();
    assert_eq!(
        TypeMapper::field_to_string(&m).unwrap(),
        r#"{"type":"ip","boost":2.0,"doc_values":true,"index":false,"store":false,"null_value":"127.0.0.1"}"#
    );
}

#[test]
fn control_characters_are_escaped() {
    let s = schema_of(vec![
        ("a\u{1f}b\tc\\", FieldMapping::leaf(DataType::Short)),
        ("\u{8}\u{c}\r\n\u{0}", FieldMapping::leaf(DataType::Byte)),
    ]);
    assert_eq!(
        TypeMapper::to_string(&s).unwrap(),
        "{\"properties\":{\"a\\u001fb\\tc\\\\\":{\"type\":\"short\"},\"\\b\\f\\r\\n\\u0000\":{\"type\":\"byte\"}}}"
    );
}
