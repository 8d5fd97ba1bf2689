//! Mapping for the Elasticsearch `ip` type.
use vstd::prelude::*;
use crate::mapping::{field_text, field_wf, knobs_text, knobs_wf, DataType, FieldMapping, Knob};
use crate::text::escape_chars;
use crate::values::{Decimal, Ipv4, KnobValue};

verus! {

/// The knobs of an `ip` mapping; `None` is a knob left unset.
#[derive(Debug, Clone, Copy, PartialEq, Eq, Structural)]
pub struct IpConfig {
    /// Field-level index time boosting.
    pub boost: Option<Decimal>,
    /// Whether the field is stored column-wise for sorting and aggregations.
    pub doc_values: Option<bool>,
    /// Whether the field is searchable.
    pub index: Option<bool>,
    /// The address that stands for an explicit `null`.
    pub null_value: Option<Ipv4>,
    /// Whether the field is stored apart from `_source`.
    pub store: Option<bool>,
}

/// The base requirements for mapping an `ip` type.
///
/// A custom mapping overrides the knobs it sets; the others stay unset.
pub trait IpMapping: Sized {
    /// Field-level index time boosting.
    fn boost() -> (r: Option<Decimal>)
        default_ensures
            r is None,
    {
        None
    }

    /// Whether the field is stored column-wise for sorting and aggregations.
    fn doc_values() -> (r: Option<bool>)
        default_ensures
            r is None,
    {
        None
    }

    /// Whether the field is searchable.
    fn index() -> (r: Option<bool>)
        default_ensures
            r is None,
    {
        None
    }

    /// The address that stands for an explicit `null`.
    fn null_value() -> (r: Option<Ipv4>)
        default_ensures
            r is None,
    {
        None
    }

    /// Whether the field is stored apart from `_source`.
    fn store() -> (r: Option<bool>)
        default_ensures
            r is None,
    {
        None
    }
}

/// A field that will be mapped as an `ip` with the mapping `M`.
pub trait IpFieldType<M: IpMapping> {

}

/// The default `ip` mapping: every knob unset.
#[derive(Debug, Default, Clone, Copy, PartialEq, Eq, Structural)]
pub struct DefaultIpMapping;

impl IpMapping for DefaultIpMapping {

}

impl IpFieldType<DefaultIpMapping> for Ipv4 {

}

/// A knob as its key and value.
pub open spec fn knob_view(k: Knob) -> (Seq<char>, KnobValue) {
    (k.name@, k.value)
}

/// One entry `(key, value)` when the knob is set, none when it is not.
pub open spec fn entry<T>(key: Seq<char>, v: Option<T>, f: spec_fn(T) -> KnobValue) -> Seq<
    (Seq<char>, KnobValue),
> {
    match v {
        Some(x) => seq![(key, f(x))],
        None => Seq::empty(),
    }
}

/// The `boost` entry of an `ip` mapping.
pub open spec fn boost_entry(c: IpConfig) -> Seq<(Seq<char>, KnobValue)> {
    entry("boost"@, c.boost, |d: Decimal| KnobValue::Number(d))
}

/// The `doc_values` entry of an `ip` mapping.
pub open spec fn doc_values_entry(c: IpConfig) -> Seq<(Seq<char>, KnobValue)> {
    entry("doc_values"@, c.doc_values, |b: bool| KnobValue::Bool(b))
}

/// The `index` entry of an `ip` mapping.
pub open spec fn index_entry(c: IpConfig) -> Seq<(Seq<char>, KnobValue)> {
    entry("index"@, c.index, |b: bool| KnobValue::Bool(b))
}

/// The `store` entry of an `ip` mapping.
pub open spec fn store_entry(c: IpConfig) -> Seq<(Seq<char>, KnobValue)> {
    entry("store"@, c.store, |b: bool| KnobValue::Bool(b))
}

/// The `null_value` entry of an `ip` mapping.
pub open spec fn null_value_entry(c: IpConfig) -> Seq<(Seq<char>, KnobValue)> {
    entry("null_value"@, c.null_value, |a: Ipv4| KnobValue::Ip(a))
}

/// The set knobs of an `ip` mapping in the order they are written:
/// `boost`, `doc_values`, `index`, `store`, `null_value`.
pub open spec fn ip_knobs(c: IpConfig) -> Seq<(Seq<char>, KnobValue)> {
    boost_entry(c) + doc_values_entry(c) + index_entry(c) + store_entry(c) + null_value_entry(c)
}

fn push_knob(knobs: &mut Vec<Knob>, key: &str, value: KnobValue)
    requires
        knobs_wf(old(knobs)@),
        key@ != "type"@,
        forall|i: int| 0 <= i < old(knobs)@.len() ==> old(knobs)@[i].name@ != key@,
    ensures
        final(knobs)@.map_values(|k: Knob| knob_view(k)) == old(knobs)@.map_values(
            |k: Knob| knob_view(k),
        ).push((key@, value)),
        final(knobs)@ == old(knobs)@.push(final(knobs)@.last()),
        final(knobs)@.last().name@ == key@,
        knobs_wf(final(knobs)@),
{
    knobs.push(Knob { name: String::from_str(key), value });
    assert(final(knobs)@.map_values(|k: Knob| knob_view(k)) =~= old(knobs)@.map_values(
        |k: Knob| knob_view(k),
    ).push((key@, value)));
    assert(final(knobs)@ =~= old(knobs)@.push(final(knobs)@.last()));
}

/// The keys of the `ip` knobs differ from each other and from `type`.
proof fn lemma_ip_keys_distinct()
    ensures
        "boost"@ != "type"@ && "doc_values"@ != "type"@ && "index"@ != "type"@ && "store"@
            != "type"@ && "null_value"@ != "type"@,
        "boost"@ != "doc_values"@ && "boost"@ != "index"@ && "boost"@ != "store"@ && "boost"@
            != "null_value"@,
        "doc_values"@ != "index"@ && "doc_values"@ != "store"@ && "doc_values"@ != "null_value"@,
        "index"@ != "store"@ && "index"@ != "null_value"@ && "store"@ != "null_value"@,
{
    reveal_strlit("boost");
    reveal_strlit("doc_values");
    reveal_strlit("index");
    reveal_strlit("store");
    reveal_strlit("null_value");
    reveal_strlit("type");
    assert("boost"@[0] != "type"@[0] && "doc_values"@[0] != "type"@[0] && "index"@[0]
        != "type"@[0] && "store"@[0] != "type"@[0] && "null_value"@[0] != "type"@[0]);
    assert("boost"@[0] != "index"@[0] && "boost"@[0] != "store"@[0] && "index"@[0]
        != "store"@[0]);
    assert("doc_values"@[0] != "null_value"@[0]);
}

impl IpConfig {
    /// The configuration with every knob unset.
    pub fn unset() -> (r: IpConfig)
        ensures
            r.boost is None && r.doc_values is None && r.index is None && r.null_value is None
                && r.store is None,
    {
        IpConfig { boost: None, doc_values: None, index: None, null_value: None, store: None }
    }

    /// The knobs that the mapping `M` sets.
    pub fn of<M: IpMapping>() -> (r: IpConfig)
        ensures
            call_ensures(M::boost, (), r.boost),
            call_ensures(M::doc_values, (), r.doc_values),
            call_ensures(M::index, (), r.index),
            call_ensures(M::null_value, (), r.null_value),
            call_ensures(M::store, (), r.store),
    {
        IpConfig {
            boost: M::boost(),
            doc_values: M::doc_values(),
            index: M::index(),
            null_value: M::null_value(),
            store: M::store(),
        }
    }

    /// The field mapping of type `ip` with exactly the knobs that are set.
    #[verifier::rlimit(50)]
    pub fn to_mapping(&self) -> (r: FieldMapping)
        ensures
            r matches FieldMapping::Leaf { data_type, knobs } && data_type == DataType::Ip
                && knobs@.map_values(|k: Knob| knob_view(k)) == ip_knobs(*self),
            field_wf(r),
    {
        proof {
            lemma_ip_keys_distinct();
        }
        let mut knobs: Vec<Knob> = Vec::new();
        assert(knobs@.map_values(|k: Knob| knob_view(k)) =~= Seq::empty());
        if let Some(d) = self.boost {
            push_knob(&mut knobs, "boost", KnobValue::Number(d));
        }
        assert(forall|i: int| 0 <= i < knobs@.len() ==> knobs@[i].name@ == "boost"@);
        if let Some(b) = self.doc_values {
            push_knob(&mut knobs, "doc_values", KnobValue::Bool(b));
        }
        assert(forall|i: int|
            0 <= i < knobs@.len() ==> knobs@[i].name@ == "boost"@ || knobs@[i].name@
                == "doc_values"@);
        if let Some(b) = self.index {
            push_knob(&mut knobs, "index", KnobValue::Bool(b));
        }
        assert(forall|i: int|
            0 <= i < knobs@.len() ==> knobs@[i].name@ == "boost"@ || knobs@[i].name@
                == "doc_values"@ || knobs@[i].name@ == "index"@);
        if let Some(b) = self.store {
            push_knob(&mut knobs, "store", KnobValue::Bool(b));
        }
        assert(forall|i: int|
            0 <= i < knobs@.len() ==> knobs@[i].name@ == "boost"@ || knobs@[i].name@
                == "doc_values"@ || knobs@[i].name@ == "index"@ || knobs@[i].name@ == "store"@);
        if let Some(a) = self.null_value {
            push_knob(&mut knobs, "null_value", KnobValue::Ip(a));
        }
        assert(knobs@.map_values(|k: Knob| knob_view(k)) =~= ip_knobs(*self));
        FieldMapping::Leaf { data_type: DataType::Ip, knobs }
    }
}

/// The `ip` field mapping of the mapping `M`.
pub fn ip_field<M: IpMapping>() -> (r: FieldMapping)
    ensures
        r matches FieldMapping::Leaf { data_type, knobs } && data_type == DataType::Ip && exists|
            c: IpConfig,
        |
            {
                &&& call_ensures(M::boost, (), c.boost)
                &&& call_ensures(M::doc_values, (), c.doc_values)
                &&& call_ensures(M::index, (), c.index)
                &&& call_ensures(M::null_value, (), c.null_value)
                &&& call_ensures(M::store, (), c.store)
                &&& knobs@.map_values(|k: Knob| knob_view(k)) == ip_knobs(c)
            },
        field_wf(r),
{
    let c = IpConfig::of::<M>();
    let r = c.to_mapping();
    assert(r matches FieldMapping::Leaf { knobs, .. } && knobs@.map_values(|k: Knob| knob_view(k))
        == ip_knobs(c));
    r
}

/// The default mapping sets no knob: its `ip` field has the type alone.
pub proof fn lemma_default_ip_knobs(c: IpConfig)
    requires
        call_ensures(DefaultIpMapping::boost, (), c.boost),
        call_ensures(DefaultIpMapping::doc_values, (), c.doc_values),
        call_ensures(DefaultIpMapping::index, (), c.index),
        call_ensures(DefaultIpMapping::null_value, (), c.null_value),
        call_ensures(DefaultIpMapping::store, (), c.store),
    ensures
        ip_knobs(c).len() == 0,
{
    assert(ip_knobs(c) =~= Seq::empty());
}

/// An `ip` leaf with no knob set renders as `{"type":"ip"}`.
pub proof fn lemma_unset_ip_text(m: FieldMapping)
    requires
        m matches FieldMapping::Leaf { data_type, knobs } && data_type == DataType::Ip
            && knobs@.len() == 0,
    ensures
        field_text(m) == "{\"type\":\"ip\"}"@,
{
    reveal_strlit("type");
    reveal_strlit("ip");
    reveal_strlit("{\"type\":\"ip\"}");
    reveal_with_fuel(escape_chars, 5);
    assert(escape_chars("type"@) =~= "type"@);
    assert(escape_chars("ip"@) =~= "ip"@);
    if let FieldMapping::Leaf { knobs, .. } = m {
        assert(knobs_text(knobs@) == Seq::<char>::empty());
    }
    assert(field_text(m) =~= "{\"type\":\"ip\"}"@);
}

/// Some entry of the list has the key `key`.
pub open spec fn has_key(s: Seq<(Seq<char>, KnobValue)>, key: Seq<char>) -> bool {
    exists|j: int| 0 <= j < s.len() && s[j].0 == key
}

/// Every entry of the list with the key `key` holds the value `v`.
pub open spec fn key_holds(s: Seq<(Seq<char>, KnobValue)>, key: Seq<char>, v: KnobValue) -> bool {
    forall|j: int| 0 <= j < s.len() && s[j].0 == key ==> s[j].1 == v
}

proof fn lemma_concat_keys(a: Seq<(Seq<char>, KnobValue)>, b: Seq<(Seq<char>, KnobValue)>, key: Seq<char>, v: KnobValue)
    ensures
        has_key(a + b, key) <==> has_key(a, key) || has_key(b, key),
        key_holds(a, key, v) && key_holds(b, key, v) ==> key_holds(a + b, key, v),
{
    if has_key(a + b, key) {
        let j = choose|j: int| 0 <= j < (a + b).len() && (a + b)[j].0 == key;
        if j < a.len() {
            assert(a[j] == (a + b)[j]);
        } else {
            assert(b[j - a.len()] == (a + b)[j]);
        }
    }
    if has_key(a, key) {
        let j = choose|j: int| 0 <= j < a.len() && a[j].0 == key;
        assert((a + b)[j] == a[j]);
    }
    if has_key(b, key) {
        let j = choose|j: int| 0 <= j < b.len() && b[j].0 == key;
        assert((a + b)[j + a.len()] == b[j]);
    }
    if key_holds(a, key, v) && key_holds(b, key, v) {
        assert forall|j: int| 0 <= j < (a + b).len() && (a + b)[j].0 == key implies (a + b)[j].1
            == v by {
            if j < a.len() {
                assert(a[j] == (a + b)[j]);
            } else {
                assert(b[j - a.len()] == (a + b)[j]);
            }
        }
    }
}

proof fn lemma_entry_keys<T>(k: Seq<char>, o: Option<T>, f: spec_fn(T) -> KnobValue, key: Seq<char>, v: KnobValue)
    ensures
        has_key(entry(k, o, f), key) <==> (o is Some && k == key),
        k != key ==> key_holds(entry(k, o, f), key, v),
        o matches Some(x) ==> key_holds(entry(k, o, f), k, f(x)),
{
    if o is Some {
        assert(entry(k, o, f)[0].0 == k);
    }
}

/// Of every knob of an `ip` mapping: its key is among the written knobs if
/// and only if the knob is set, and then it holds the knob's value.
pub proof fn lemma_ip_knob_presence(c: IpConfig)
    ensures
        has_key(ip_knobs(c), "boost"@) <==> c.boost is Some,
        c.boost matches Some(d) ==> key_holds(ip_knobs(c), "boost"@, KnobValue::Number(d)),
        has_key(ip_knobs(c), "doc_values"@) <==> c.doc_values is Some,
        c.doc_values matches Some(b) ==> key_holds(ip_knobs(c), "doc_values"@, KnobValue::Bool(b)),
        has_key(ip_knobs(c), "index"@) <==> c.index is Some,
        c.index matches Some(b) ==> key_holds(ip_knobs(c), "index"@, KnobValue::Bool(b)),
        has_key(ip_knobs(c), "store"@) <==> c.store is Some,
        c.store matches Some(b) ==> key_holds(ip_knobs(c), "store"@, KnobValue::Bool(b)),
        has_key(ip_knobs(c), "null_value"@) <==> c.null_value is Some,
        c.null_value matches Some(a) ==> key_holds(ip_knobs(c), "null_value"@, KnobValue::Ip(a)),
{
    reveal_strlit("boost");
    reveal_strlit("doc_values");
    reveal_strlit("index");
    reveal_strlit("store");
    reveal_strlit("null_value");
    assert("boost"@[0] != "index"@[0] && "boost"@[0] != "store"@[0] && "index"@[0] != "store"@[0]);
    assert("doc_values"@[0] != "null_value"@[0]);
    lemma_ip_entries(c, "boost"@);
    lemma_ip_entries(c, "doc_values"@);
    lemma_ip_entries(c, "index"@);
    lemma_ip_entries(c, "store"@);
    lemma_ip_entries(c, "null_value"@);
    let dv = match c.boost { Some(d) => KnobValue::Number(d), None => KnobValue::Bool(true) };
    lemma_ip_key(c, "boost"@, dv);
    let bv = match c.doc_values { Some(b) => KnobValue::Bool(b), None => KnobValue::Bool(true) };
    lemma_ip_key(c, "doc_values"@, bv);
    let iv = match c.index { Some(b) => KnobValue::Bool(b), None => KnobValue::Bool(true) };
    lemma_ip_key(c, "index"@, iv);
    let sv = match c.store { Some(b) => KnobValue::Bool(b), None => KnobValue::Bool(true) };
    lemma_ip_key(c, "store"@, sv);
    let nv = match c.null_value { Some(a) => KnobValue::Ip(a), None => KnobValue::Bool(true) };
    lemma_ip_key(c, "null_value"@, nv);
}

proof fn lemma_ip_entries(c: IpConfig, key: Seq<char>)
    ensures
        has_key(boost_entry(c), key) <==> (c.boost is Some && key == "boost"@),
        has_key(doc_values_entry(c), key) <==> (c.doc_values is Some && key == "doc_values"@),
        has_key(index_entry(c), key) <==> (c.index is Some && key == "index"@),
        has_key(store_entry(c), key) <==> (c.store is Some && key == "store"@),
        has_key(null_value_entry(c), key) <==> (c.null_value is Some && key == "null_value"@),
        forall|v: KnobValue|
            key != "boost"@ ==> #[trigger] key_holds(boost_entry(c), key, v),
        forall|v: KnobValue|
            key != "doc_values"@ ==> #[trigger] key_holds(doc_values_entry(c), key, v),
        forall|v: KnobValue| key != "index"@ ==> #[trigger] key_holds(index_entry(c), key, v),
        forall|v: KnobValue| key != "store"@ ==> #[trigger] key_holds(store_entry(c), key, v),
        forall|v: KnobValue|
            key != "null_value"@ ==> #[trigger] key_holds(null_value_entry(c), key, v),
        c.boost matches Some(d) ==> key_holds(boost_entry(c), "boost"@, KnobValue::Number(d)),
        c.doc_values matches Some(b) ==> key_holds(
            doc_values_entry(c),
            "doc_values"@,
            KnobValue::Bool(b),
        ),
        c.index matches Some(b) ==> key_holds(index_entry(c), "index"@, KnobValue::Bool(b)),
        c.store matches Some(b) ==> key_holds(store_entry(c), "store"@, KnobValue::Bool(b)),
        c.null_value matches Some(a) ==> key_holds(
            null_value_entry(c),
            "null_value"@,
            KnobValue::Ip(a),
        ),
{
    assert forall|v: KnobValue| true implies {
        &&& key != "boost"@ ==> key_holds(boost_entry(c), key, v)
        &&& key != "doc_values"@ ==> key_holds(doc_values_entry(c), key, v)
        &&& key != "index"@ ==> key_holds(index_entry(c), key, v)
        &&& key != "store"@ ==> key_holds(store_entry(c), key, v)
        &&& key != "null_value"@ ==> key_holds(null_value_entry(c), key, v)
    } by {
        lemma_entry_keys("boost"@, c.boost, |d: Decimal| KnobValue::Number(d), key, v);
        lemma_entry_keys("doc_values"@, c.doc_values, |b: bool| KnobValue::Bool(b), key, v);
        lemma_entry_keys("index"@, c.index, |b: bool| KnobValue::Bool(b), key, v);
        lemma_entry_keys("store"@, c.store, |b: bool| KnobValue::Bool(b), key, v);
        lemma_entry_keys("null_value"@, c.null_value, |a: Ipv4| KnobValue::Ip(a), key, v);
    }
    let v = KnobValue::Bool(true);
    lemma_entry_keys("boost"@, c.boost, |d: Decimal| KnobValue::Number(d), key, v);
    lemma_entry_keys("doc_values"@, c.doc_values, |b: bool| KnobValue::Bool(b), key, v);
    lemma_entry_keys("index"@, c.index, |b: bool| KnobValue::Bool(b), key, v);
    lemma_entry_keys("store"@, c.store, |b: bool| KnobValue::Bool(b), key, v);
    lemma_entry_keys("null_value"@, c.null_value, |a: Ipv4| KnobValue::Ip(a), key, v);
}

proof fn lemma_ip_key(c: IpConfig, key: Seq<char>, v: KnobValue)
    ensures
        has_key(ip_knobs(c), key) <==> (has_key(boost_entry(c), key) || has_key(
            doc_values_entry(c),
            key,
        ) || has_key(index_entry(c), key) || has_key(store_entry(c), key) || has_key(
            null_value_entry(c),
            key,
        )),
        (key_holds(boost_entry(c), key, v) && key_holds(doc_values_entry(c), key, v) && key_holds(
            index_entry(c),
            key,
            v,
        ) && key_holds(store_entry(c), key, v) && key_holds(null_value_entry(c), key, v))
            ==> key_holds(ip_knobs(c), key, v),
{
    lemma_concat_keys(boost_entry(c), doc_values_entry(c), key, v);
    lemma_concat_keys(boost_entry(c) + doc_values_entry(c), index_entry(c), key, v);
    lemma_concat_keys(
        boost_entry(c) + doc_values_entry(c) + index_entry(c),
        store_entry(c),
        key,
        v,
    );
    lemma_concat_keys(
        boost_entry(c) + doc_values_entry(c) + index_entry(c) + store_entry(c),
        null_value_entry(c),
        key,
        v,
    );
}

} // verus!
