//! The field capability model: which mapping a field's declared type has.
//!
//! Every declared type resolves to exactly one mapping. Sequences, optional
//! values and transparent wrappers (references, copy-on-write values, locks,
//! smart pointers) have the mapping of the type they hold.

use vstd::prelude::*;
use crate::json::{decimal, json_string_of};
use crate::mapping::{leaf_json, mapping_json, Mapping, Param, ParamValue, Property};

verus! {

/// A container that forwards every capability to the value it holds.
pub enum WrapperKind {
    Reference,
    CopyOnWrite,
    Mutex,
    RwLock,
    Boxed,
    Shared,
}

/// The declared type of a document field.
pub enum FieldType {
    Integer,
    Long,
    Short,
    Byte,
    Float,
    Double,
    Boolean,
    /// Text, with a `keyword` multi-field.
    Text,
    /// A date in the named format.
    Date(String),
    /// An anonymous JSON value.
    Value,
    /// A type with a mapping of its own, such as a nested document type.
    Mapped(Mapping),
    /// A sequence of values of the inner type.
    Sequence(Box<FieldType>),
    /// An optional value of the inner type.
    Optional(Box<FieldType>),
    /// A transparent wrapper around the inner type.
    Wrapped(WrapperKind, Box<FieldType>),
}

/// The largest length of text that the `keyword` multi-field indexes.
pub const KEYWORD_IGNORE_ABOVE: u64 = 256;

/// The JSON text of the mapping of a declared type.
pub open spec fn type_json(t: FieldType) -> Seq<char>
    decreases t,
{
    match t {
        FieldType::Integer => leaf_json("integer"@, Seq::empty()),
        FieldType::Long => leaf_json("long"@, Seq::empty()),
        FieldType::Short => leaf_json("short"@, Seq::empty()),
        FieldType::Byte => leaf_json("byte"@, Seq::empty()),
        FieldType::Float => leaf_json("float"@, Seq::empty()),
        FieldType::Double => leaf_json("double"@, Seq::empty()),
        FieldType::Boolean => leaf_json("boolean"@, Seq::empty()),
        FieldType::Text => "{\"type\":"@ + json_string_of("text"@) + ",\"fields\":{"@
            + json_string_of("keyword"@) + ":"@ + leaf_json(
            "keyword"@,
            ","@ + json_string_of("ignore_above"@) + ":"@ + decimal(KEYWORD_IGNORE_ABOVE as nat),
        ) + "}"@ + "}"@,
        FieldType::Date(format) => leaf_json(
            "date"@,
            ","@ + json_string_of("format"@) + ":"@ + json_string_of(format@),
        ),
        FieldType::Value => leaf_json("nested"@, Seq::empty()),
        FieldType::Mapped(m) => mapping_json(m),
        FieldType::Sequence(inner) => type_json(*inner),
        FieldType::Optional(inner) => type_json(*inner),
        FieldType::Wrapped(_, inner) => type_json(*inner),
    }
}

/// A leaf mapping with one parameter.
fn leaf_with(data_type: &str, name: &str, value: ParamValue) -> (r: Mapping)
    ensures
        r.data_type@ == data_type@,
        r.params@.len() == 1,
        r.params@[0].name@ == name@,
        r.params@[0].value == value,
        r.fields@.len() == 0,
        r.properties@.len() == 0,
{
    let mut r = Mapping::leaf(data_type);
    r.params.push(Param { name: String::from_str(name), value });
    r
}

fn text_mapping() -> (r: Mapping)
    ensures
        mapping_json(r) == type_json(FieldType::Text),
{
    let keyword = leaf_with("keyword", "ignore_above", ParamValue::Num(KEYWORD_IGNORE_ABOVE));
    let mut r = Mapping::leaf("text");
    r.fields.push(Property { name: String::from_str("keyword"), mapping: keyword });
    proof {
        let p = keyword.params@;
        assert(p.drop_last() =~= Seq::<Param>::empty());
        reveal_with_fuel(crate::mapping::params_json, 2);
        assert(crate::mapping::params_json(r.params@) =~= Seq::empty());
        assert(r.fields@.len() == 1);
        reveal_with_fuel(crate::mapping::props_json, 2);
        assert(crate::mapping::params_json(p) =~= ","@ + json_string_of("ignore_above"@) + ":"@
            + decimal(KEYWORD_IGNORE_ABOVE as nat));
        assert(mapping_json(keyword) =~= leaf_json(
            "keyword"@,
            ","@ + json_string_of("ignore_above"@) + ":"@ + decimal(KEYWORD_IGNORE_ABOVE as nat),
        ));
        assert(crate::mapping::props_json(r.fields@) == crate::mapping::prop_json(r.fields@[0]));
        assert(mapping_json(r) =~= type_json(FieldType::Text));
    }
    r
}

impl FieldType {
    /// The mapping of this declared type; wrappers, sequences and optional
    /// values resolve to the mapping of the type they hold.
    pub fn into_mapping(self) -> (r: Mapping)
        ensures
            mapping_json(r) == type_json(self),
        decreases self,
    {
        match self {
            FieldType::Integer => Mapping::leaf("integer"),
            FieldType::Long => Mapping::leaf("long"),
            FieldType::Short => Mapping::leaf("short"),
            FieldType::Byte => Mapping::leaf("byte"),
            FieldType::Float => Mapping::leaf("float"),
            FieldType::Double => Mapping::leaf("double"),
            FieldType::Boolean => Mapping::leaf("boolean"),
            FieldType::Text => text_mapping(),
            FieldType::Date(format) => {
                let r = leaf_with("date", "format", ParamValue::Str(format));
                proof {
                    reveal_with_fuel(crate::mapping::params_json, 2);
                    assert(r.params@.drop_last() =~= Seq::<Param>::empty());
                    assert(mapping_json(r) =~= type_json(self));
                }
                r
            },
            FieldType::Value => Mapping::leaf("nested"),
            FieldType::Mapped(m) => m,
            FieldType::Sequence(inner) => inner.into_mapping(),
            FieldType::Optional(inner) => inner.into_mapping(),
            FieldType::Wrapped(_, inner) => inner.into_mapping(),
        }
    }
}

/// Wrapping a declared type in a transparent container keeps its mapping.
pub proof fn wrapper_keeps_mapping(w: WrapperKind, t: FieldType)
    ensures
        type_json(FieldType::Wrapped(w, Box::new(t))) == type_json(t),
{
}

} // verus!
