//! Mapping descriptors and their JSON form.
//!
//! A mapping says how a type is represented in the search engine: a data-type
//! tag, some parameters, multi-fields, and, for record-shaped types, the
//! properties mapping from field names to nested mappings.

use vstd::prelude::*;
use crate::json::{append_decimal, decimal, json_string_of, quote_json};

verus! {

broadcast use vstd::std_specs::vec::group_vec_axioms;

/// The value of a mapping parameter.
pub enum ParamValue {
    Str(String),
    Num(u64),
    Bool(bool),
}

/// A named mapping parameter, such as `"format": "epoch_millis"`.
pub struct Param {
    pub name: String,
    pub value: ParamValue,
}

/// One entry of a properties (or multi-fields) mapping.
pub struct Property {
    pub name: String,
    pub mapping: Mapping,
}

/// A mapping descriptor.
pub struct Mapping {
    pub data_type: String,
    pub params: Vec<Param>,
    /// Multi-fields, written under `"fields"` when there are any.
    pub fields: Vec<Property>,
    /// Nested properties, written under `"properties"` when there are any.
    pub properties: Vec<Property>,
}

/// The `dynamic` setting of an object mapping.
pub enum Dynamic {
    True,
    False,
    Strict,
}

pub open spec fn value_json(v: ParamValue) -> Seq<char> {
    match v {
        ParamValue::Str(s) => json_string_of(s@),
        ParamValue::Num(n) => decimal(n as nat),
        ParamValue::Bool(b) => if b { "true"@ } else { "false"@ },
    }
}

pub open spec fn param_json(p: Param) -> Seq<char> {
    json_string_of(p.name@) + ":"@ + value_json(p.value)
}

/// The parameters, each preceded by a comma (they always follow the type tag).
pub open spec fn params_json(ps: Seq<Param>) -> Seq<char>
    decreases ps.len(),
{
    if ps.len() == 0 {
        Seq::empty()
    } else {
        params_json(ps.drop_last()) + ","@ + param_json(ps.last())
    }
}

/// The JSON object of a mapping descriptor in field position.
pub open spec fn mapping_json(m: Mapping) -> Seq<char>
    decreases m,
{
    "{\"type\":"@ + json_string_of(m.data_type@) + params_json(m.params@)
        + (if m.fields@.len() > 0 {
            ",\"fields\":{"@ + props_json(m.fields@) + "}"@
        } else {
            Seq::empty()
        })
        + (if m.properties@.len() > 0 {
            ",\"properties\":{"@ + props_json(m.properties@) + "}"@
        } else {
            Seq::empty()
        })
        + "}"@
}

pub open spec fn prop_json(p: Property) -> Seq<char>
    decreases p,
{
    json_string_of(p.name@) + ":"@ + mapping_json(p.mapping)
}

/// The entries of a properties mapping, separated by commas, without braces.
pub open spec fn props_json(ps: Seq<Property>) -> Seq<char>
    decreases ps,
{
    if ps.len() == 0 {
        Seq::empty()
    } else if ps.len() == 1 {
        prop_json(ps[0])
    } else {
        props_json(ps.subrange(0, ps.len() - 1)) + ","@ + prop_json(ps[ps.len() - 1])
    }
}


fn write_value(out: &mut String, v: &ParamValue)
    ensures
        final(out)@ == old(out)@ + value_json(*v),
{
    match v {
        ParamValue::Str(s) => {
            let q = quote_json(s.as_str());
            out.append(q.as_str());
        },
        ParamValue::Num(n) => {
            append_decimal(out, *n);
        },
        ParamValue::Bool(b) => {
            if *b {
                out.append("true");
            } else {
                out.append("false");
            }
        },
    }
}

fn write_params(out: &mut String, ps: &Vec<Param>)
    ensures
        final(out)@ == old(out)@ + params_json(ps@),
{
    let mut i: usize = 0;
    while i < ps.len()
        invariant
            0 <= i <= ps@.len(),
            out@ == old(out)@ + params_json(ps@.subrange(0, i as int)),
        decreases ps@.len() - i,
    {
        let p = &ps[i];
        let ghost before = out@;
        out.append(",");
        let q = quote_json(p.name.as_str());
        out.append(q.as_str());
        out.append(":");
        write_value(out, &p.value);
        proof {
            let pre = ps@.subrange(0, i + 1);
            assert(pre.drop_last() =~= ps@.subrange(0, i as int));
            assert(pre.last() == *p);
            assert(out@ =~= old(out)@ + params_json(pre));
        }
        i = i + 1;
    }
    assert(ps@.subrange(0, ps@.len() as int) =~= ps@);
}

fn write_mapping(out: &mut String, m: &Mapping)
    ensures
        final(out)@ == old(out)@ + mapping_json(*m),
    decreases m,
{
    let ghost start = out@;
    out.append("{\"type\":");
    let q = quote_json(m.data_type.as_str());
    out.append(q.as_str());
    write_params(out, &m.params);
    let ghost mid = out@;
    if m.fields.len() > 0 {
        out.append(",\"fields\":{");
        write_props(out, &m.fields);
        out.append("}");
    }
    let ghost mid2 = out@;
    if m.properties.len() > 0 {
        out.append(",\"properties\":{");
        write_props(out, &m.properties);
        out.append("}");
    }
    out.append("}");
    proof {
        assert(out@ =~= old(out)@ + mapping_json(*m));
    }
}

fn write_prop(out: &mut String, p: &Property)
    ensures
        final(out)@ == old(out)@ + prop_json(*p),
    decreases p,
{
    let q = quote_json(p.name.as_str());
    out.append(q.as_str());
    out.append(":");
    write_mapping(out, &p.mapping);
    assert(out@ =~= old(out)@ + prop_json(*p));
}

fn write_props(out: &mut String, ps: &Vec<Property>)
    ensures
        final(out)@ == old(out)@ + props_json(ps@),
    decreases ps,
{
    let mut i: usize = 0;
    while i < ps.len()
        invariant
            0 <= i <= ps@.len(),
            out@ == old(out)@ + props_json(ps@.subrange(0, i as int)),
        decreases ps@.len() - i,
    {
        let p = &ps[i];
        if i > 0 {
            out.append(",");
        }
        proof {
            assert(decreases_to!(ps => ps@));
            assert(decreases_to!(ps@ => ps@[i as int]));
        }
        write_prop(out, p);
        proof {
            let pre = ps@.subrange(0, i + 1);
            assert(pre.subrange(0, pre.len() - 1) =~= ps@.subrange(0, i as int));
            assert(pre[pre.len() - 1] == *p);
            if i == 0 {
                assert(pre[0] == *p);
            }
            assert(out@ =~= old(out)@ + props_json(pre));
        }
        i = i + 1;
    }
    assert(ps@.subrange(0, ps@.len() as int) =~= ps@);
}


/// The JSON object of a document's index mapping: its properties alone.
pub open spec fn index_json(ps: Seq<Property>) -> Seq<char> {
    "{\"properties\":{"@ + props_json(ps) + "}}"@
}

/// The JSON object of a leaf mapping with the given tag and parameter text.
pub open spec fn leaf_json(tag: Seq<char>, params: Seq<char>) -> Seq<char> {
    "{\"type\":"@ + json_string_of(tag) + params + "}"@
}

/// The JSON text of an index mapping with the given properties.
pub(crate) fn index_text(ps: &Vec<Property>) -> (r: String)
    ensures
        r@ == index_json(ps@),
{
    let mut out = String::new();
    out.append("{\"properties\":{");
    write_props(&mut out, ps);
    out.append("}}");
    assert(out@ =~= index_json(ps@));
    out
}

impl Mapping {
    /// A mapping with a data-type tag and nothing else.
    pub fn leaf(data_type: &str) -> (r: Mapping)
        ensures
            r.data_type@ == data_type@,
            r.params@.len() == 0,
            r.fields@.len() == 0,
            r.properties@.len() == 0,
            mapping_json(r) == leaf_json(data_type@, Seq::empty()),
    {
        let r = Mapping {
            data_type: String::from_str(data_type),
            params: Vec::new(),
            fields: Vec::new(),
            properties: Vec::new(),
        };
        assert(params_json(r.params@) =~= Seq::empty());
        assert(mapping_json(r) =~= leaf_json(data_type@, Seq::empty()));
        r
    }

    /// A record-shaped mapping: a tag and the properties of its fields.
    pub fn object(data_type: &str, properties: Vec<Property>) -> (r: Mapping)
        ensures
            r.data_type@ == data_type@,
            r.params@.len() == 0,
            r.fields@.len() == 0,
            r.properties@ == properties@,
    {
        Mapping {
            data_type: String::from_str(data_type),
            params: Vec::new(),
            fields: Vec::new(),
            properties,
        }
    }

    /// The JSON text of this mapping in field position.
    pub fn to_json(&self) -> (r: String)
        ensures
            r@ == mapping_json(*self),
    {
        let mut out = String::new();
        write_mapping(&mut out, self);
        assert(out@ =~= mapping_json(*self));
        out
    }
}

impl Dynamic {
    /// The parameter value that stands for this setting.
    pub fn to_param_value(&self) -> (r: ParamValue)
        ensures
            match *self {
                Dynamic::True => r == ParamValue::Bool(true),
                Dynamic::False => r == ParamValue::Bool(false),
                Dynamic::Strict => r is Str && r->Str_0@ == "strict"@,
            },
    {
        match self {
            Dynamic::True => ParamValue::Bool(true),
            Dynamic::False => ParamValue::Bool(false),
            Dynamic::Strict => ParamValue::Str(String::from_str("strict")),
        }
    }

    /// The JSON text of this setting: `true`, `false` or `"strict"`.
    pub fn to_json(&self) -> (r: String)
        ensures
            match *self {
                Dynamic::True => r@ == "true"@,
                Dynamic::False => r@ == "false"@,
                Dynamic::Strict => r@ == json_string_of("strict"@),
            },
    {
        let v = self.to_param_value();
        let mut out = String::new();
        write_value(&mut out, &v);
        assert(out@ =~= value_json(v));
        out
    }
}

/// The mapping of a document type as an indexable type: its properties,
/// serialized as `{"properties": {...}}`.
pub struct IndexDocumentMapping {
    pub properties: Vec<Property>,
}

impl IndexDocumentMapping {
    pub fn new(properties: Vec<Property>) -> (r: IndexDocumentMapping)
        ensures
            r.properties@ == properties@,
    {
        IndexDocumentMapping { properties }
    }

    /// The JSON text of the index mapping.
    pub fn to_json(&self) -> (r: String)
        ensures
            r@ == index_json(self.properties@),
    {
        index_text(&self.properties)
    }
}

/// A properties mapping with no entries.
pub struct EmptyPropertiesMapping;

impl EmptyPropertiesMapping {
    /// The number of entries: none.
    pub fn props_len() -> (r: usize)
        ensures
            r == 0,
    {
        0
    }

    /// The entries: none.
    pub fn props() -> (r: Vec<Property>)
        ensures
            r@.len() == 0,
    {
        Vec::new()
    }
}

/// Mapping for an anonymous JSON object: a nested type with no properties.
pub struct ValueObjectMapping;

impl ValueObjectMapping {
    /// The mapping of an anonymous JSON object in field position.
    pub fn field_mapping() -> (r: Mapping)
        ensures
            r.data_type@ == "nested"@,
            r.params@.len() == 0,
            r.fields@.len() == 0,
            r.properties@.len() == 0,
            mapping_json(r) == leaf_json("nested"@, Seq::empty()),
    {
        Mapping::leaf("nested")
    }

    /// The index mapping of an anonymous JSON object: no properties.
    pub fn index_mapping() -> (r: IndexDocumentMapping)
        ensures
            r.properties@.len() == 0,
    {
        IndexDocumentMapping::new(EmptyPropertiesMapping::props())
    }
}

} // verus!
