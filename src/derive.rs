//! Derivation of a document type from the description of a record type and
//! its annotations.
//!
//! Document-level annotations: `mapping = "<Ident>"`; `index = "<literal>"` or
//! `index(expr = "<path>")`; `ty = "<literal>"` or `ty(expr = "<path>")`;
//! `id(expr = "<path>")`. Field-level: the `id` marker. Renaming and exclusion
//! of fields are those of the serialization layer.

use vstd::prelude::*;
use crate::document::{
    id_view, Document, IdSource, IdView, MetadataDef, MetadataSource, ObjectDef, SourceView,
};
use crate::field::{type_json, FieldType};
use crate::mapping::{index_json, mapping_json, prop_json, props_json, Property};

verus! {

/// One item of an annotation list.
pub enum Meta {
    /// A bare word, such as `id`.
    Word(String),
    /// `name = "value"`.
    NameValue(String, String),
    /// `name(items...)`.
    List(String, Vec<Meta>),
}

/// A field of a record type.
pub struct FieldDef {
    pub ident: String,
    pub ty: FieldType,
    /// Excluded from serialization.
    pub skip_serializing: bool,
    /// The name it is serialized under, when renamed.
    pub rename: Option<String>,
    /// Its annotation items.
    pub attrs: Vec<Meta>,
}

/// The shape of a type definition.
pub enum Body {
    /// A record with named fields.
    Record(Vec<FieldDef>),
    /// A record with positional fields.
    Tuple(Vec<FieldType>),
    /// A record without fields or braces.
    Unit,
    /// A type with variants.
    Enum(Vec<String>),
}

/// A type definition with its document-level annotation items.
pub struct TypeDef {
    pub ident: String,
    pub attrs: Vec<Meta>,
    pub body: Body,
}

/// Why a derivation fails.
#[derive(PartialEq, Eq, Structural, Debug)]
pub enum DeriveElasticTypeError {
    /// The type is not a record with named fields.
    InvalidInput,
    /// The id is given as a literal; it must be `id(expr = "...")`.
    IdNotExpression,
}

impl DeriveElasticTypeError {
    /// A description of the error for the author of the type.
    pub fn message(&self) -> (r: &'static str)
        ensures
            *self == DeriveElasticTypeError::InvalidInput ==> r@
                == "deriving a document type is only valid for structs"@,
            *self == DeriveElasticTypeError::IdNotExpression ==> r@
                == "id attributes on a struct definition must be of the form #[elastic(id(expr = \"expression\"))]"@,
    {
        match self {
            DeriveElasticTypeError::InvalidInput => "deriving a document type is only valid for structs",
            DeriveElasticTypeError::IdNotExpression => "id attributes on a struct definition must be of the form #[elastic(id(expr = \"expression\"))]",
        }
    }
}

/// The lower-case form of some text.
pub uninterp spec fn lower_of(s: Seq<char>) -> Seq<char>;

/// Relies on `str::to_lowercase`: the lower-case form, which depends on the
/// text alone.
#[verifier::external_body]
fn to_lowercase(s: &str) -> (r: String)
    ensures
        r@ == lower_of(s@),
{
    s.to_lowercase()
}

/// The value of the first `key = "value"` item.
pub open spec fn name_value(attrs: Seq<Meta>, key: Seq<char>) -> Option<Seq<char>>
    decreases attrs.len(),
{
    if attrs.len() == 0 {
        None
    } else if attrs[0] is NameValue && attrs[0]->NameValue_0@ == key {
        Some(attrs[0]->NameValue_1@)
    } else {
        name_value(attrs.drop_first(), key)
    }
}

/// The first `expr = "..."` value inside the `key(...)` lists.
pub open spec fn list_expr(attrs: Seq<Meta>, key: Seq<char>) -> Option<Seq<char>>
    decreases attrs.len(),
{
    if attrs.len() == 0 {
        None
    } else if attrs[0] is List && attrs[0]->List_0@ == key && name_value(
        attrs[0]->List_1@,
        "expr"@,
    ) is Some {
        name_value(attrs[0]->List_1@, "expr"@)
    } else {
        list_expr(attrs.drop_first(), key)
    }
}

/// A document-level source: a literal first, then an expression.
pub open spec fn method_from_struct(attrs: Seq<Meta>, key: Seq<char>) -> Option<SourceView> {
    match name_value(attrs, key) {
        Some(l) => Some(SourceView::Literal(l)),
        None => match list_expr(attrs, key) {
            Some(e) => Some(SourceView::Expr(e)),
            None => None,
        },
    }
}

pub open spec fn source_view(s: Option<MetadataSource>) -> Option<SourceView> {
    match s {
        Some(m) => Some(m@),
        None => None,
    }
}

/// Whether the items hold the bare word `key`.
pub open spec fn has_word(attrs: Seq<Meta>, key: Seq<char>) -> bool {
    exists|i: int| 0 <= i < attrs.len() && #[trigger] attrs[i] is Word && attrs[i]->Word_0@ == key
}

/// The name a field is serialized under.
pub open spec fn ser_name(f: FieldDef) -> Seq<char> {
    match f.rename {
        Some(r) => r@,
        None => f.ident@,
    }
}

/// The serialized fields, in declaration order.
pub open spec fn ser_fields(fs: Seq<FieldDef>) -> Seq<FieldDef>
    decreases fs.len(),
{
    if fs.len() == 0 {
        Seq::empty()
    } else if fs.last().skip_serializing {
        ser_fields(fs.drop_last())
    } else {
        ser_fields(fs.drop_last()).push(fs.last())
    }
}

/// The identifier of the first serialized field marked with `key`.
pub open spec fn marked_field(fs: Seq<FieldDef>, key: Seq<char>) -> Option<Seq<char>>
    decreases fs.len(),
{
    if fs.len() == 0 {
        None
    } else if !fs[0].skip_serializing && has_word(fs[0].attrs@, key) {
        Some(fs[0].ident@)
    } else {
        marked_field(fs.drop_first(), key)
    }
}

/// The properties are those of the serialized fields: one each, in order,
/// under the serialized name, with the mapping of the field's type.
pub open spec fn properties_of(ps: Seq<Property>, fs: Seq<FieldDef>) -> bool {
    let sf = ser_fields(fs);
    &&& ps.len() == sf.len()
    &&& forall|i: int|
        0 <= i < ps.len() ==> (#[trigger] ps[i]).name@ == ser_name(sf[i]) && mapping_json(
            ps[i].mapping,
        ) == type_json(sf[i].ty)
}

/// The mapping type's identifier: the one named, or `<Ident>Mapping`.
pub open spec fn mapping_name(input: TypeDef) -> Seq<char> {
    match name_value(input.attrs@, "mapping"@) {
        Some(n) => n,
        None => input.ident@ + "Mapping"@,
    }
}

/// The index source: annotated, or else the lower-cased type identifier.
pub open spec fn index_source(input: TypeDef) -> SourceView {
    match method_from_struct(input.attrs@, "index"@) {
        Some(s) => s,
        None => SourceView::Literal(lower_of(input.ident@)),
    }
}

/// The type-name source: annotated, or else `_doc`.
pub open spec fn ty_source(input: TypeDef) -> SourceView {
    match method_from_struct(input.attrs@, "ty"@) {
        Some(s) => s,
        None => SourceView::Literal("_doc"@),
    }
}

/// Whether the id is annotated as a literal, which is refused.
pub open spec fn id_is_literal(input: TypeDef) -> bool {
    method_from_struct(input.attrs@, "id"@) matches Some(SourceView::Literal(_))
}

/// The id source: an expression first, then the first field marked `id`.
pub open spec fn id_source(input: TypeDef, fs: Seq<FieldDef>) -> Option<IdView> {
    match method_from_struct(input.attrs@, "id"@) {
        Some(SourceView::Expr(e)) => Some(IdView::Expr(e)),
        _ => match marked_field(fs, "id"@) {
            Some(f) => Some(IdView::Field(f)),
            None => None,
        },
    }
}

/// What the derivation of a record type yields.
pub open spec fn derived(input: TypeDef, d: Document) -> bool {
    &&& input.body is Record
    &&& d.object.name@ == input.ident@
    &&& d.object.mapping_name@ == mapping_name(input)
    &&& d.object.mapping_generated == (name_value(input.attrs@, "mapping"@) is None)
    &&& d.metadata.index@ == index_source(input)
    &&& d.metadata.ty@ == ty_source(input)
    &&& id_view(d.identity) == id_source(input, input.body->Record_0@)
    &&& properties_of(d.object.properties@, input.body->Record_0@)
}

fn text_is(a: &String, b: &str) -> (r: bool)
    ensures
        r == (a@ == b@),
{
    let t = String::from_str(b);
    *a == t
}

/// The value of the first `key = "value"` item.
fn get_name_value(attrs: &Vec<Meta>, key: &str) -> (r: Option<String>)
    ensures
        r.deep_view() == name_value(attrs@, key@),
{
    let mut i: usize = 0;
    assert(attrs@.subrange(0, attrs@.len() as int) =~= attrs@);
    while i < attrs.len()
        invariant
            0 <= i <= attrs@.len(),
            name_value(attrs@, key@) == name_value(
                attrs@.subrange(i as int, attrs@.len() as int),
                key@,
            ),
        decreases attrs@.len() - i,
    {
        let ghost rest = attrs@.subrange(i as int, attrs@.len() as int);
        assert(rest.drop_first() =~= attrs@.subrange(i + 1, attrs@.len() as int));
        assert(rest[0] == attrs@[i as int]);
        if let Meta::NameValue(k, v) = &attrs[i] {
            if text_is(k, key) {
                return Some(v.clone());
            }
        }
        i = i + 1;
    }
    None
}

/// The first `expr = "..."` value inside the `key(...)` lists.
fn get_list_expr(attrs: &Vec<Meta>, key: &str) -> (r: Option<String>)
    ensures
        r.deep_view() == list_expr(attrs@, key@),
{
    let mut i: usize = 0;
    assert(attrs@.subrange(0, attrs@.len() as int) =~= attrs@);
    while i < attrs.len()
        invariant
            0 <= i <= attrs@.len(),
            list_expr(attrs@, key@) == list_expr(
                attrs@.subrange(i as int, attrs@.len() as int),
                key@,
            ),
        decreases attrs@.len() - i,
    {
        let ghost rest = attrs@.subrange(i as int, attrs@.len() as int);
        assert(rest.drop_first() =~= attrs@.subrange(i + 1, attrs@.len() as int));
        assert(rest[0] == attrs@[i as int]);
        if let Meta::List(k, items) = &attrs[i] {
            if text_is(k, key) {
                let e = get_name_value(items, "expr");
                if e.is_some() {
                    return e;
                }
            }
        }
        i = i + 1;
    }
    None
}

/// A document-level source of `method`: a literal first, then an expression.
fn get_method_from_struct(attrs: &Vec<Meta>, method: &str) -> (r: Option<MetadataSource>)
    ensures
        source_view(r) == method_from_struct(attrs@, method@),
{
    if let Some(lit) = get_name_value(attrs, method) {
        return Some(MetadataSource::Literal(lit));
    }
    if let Some(expr) = get_list_expr(attrs, method) {
        return Some(MetadataSource::Expr(expr));
    }
    None
}

fn get_word(attrs: &Vec<Meta>, key: &str) -> (r: bool)
    ensures
        r == has_word(attrs@, key@),
{
    let mut i: usize = 0;
    while i < attrs.len()
        invariant
            0 <= i <= attrs@.len(),
            forall|j: int|
                0 <= j < i ==> !(#[trigger] attrs@[j] is Word && attrs@[j]->Word_0@ == key@),
        decreases attrs@.len() - i,
    {
        if let Meta::Word(w) = &attrs[i] {
            if text_is(w, key) {
                return true;
            }
        }
        i = i + 1;
    }
    false
}

/// The identifier of the first serialized field marked with `method`.
fn get_method_from_fields(fields: &Vec<FieldDef>, method: &str) -> (r: Option<String>)
    ensures
        r.deep_view() == marked_field(fields@, method@),
{
    let mut i: usize = 0;
    assert(fields@.subrange(0, fields@.len() as int) =~= fields@);
    while i < fields.len()
        invariant
            0 <= i <= fields@.len(),
            marked_field(fields@, method@) == marked_field(
                fields@.subrange(i as int, fields@.len() as int),
                method@,
            ),
        decreases fields@.len() - i,
    {
        let ghost rest = fields@.subrange(i as int, fields@.len() as int);
        assert(rest.drop_first() =~= fields@.subrange(i + 1, fields@.len() as int));
        assert(rest[0] == fields@[i as int]);
        let f = &fields[i];
        if !f.skip_serializing && get_word(&f.attrs, method) {
            return Some(f.ident.clone());
        }
        i = i + 1;
    }
    None
}

/// The name a field is serialized under, or nothing when it is excluded.
fn get_ser_field(field: &FieldDef) -> (r: Option<String>)
    ensures
        r is Some <==> !field.skip_serializing,
        r is Some ==> r->Some_0@ == ser_name(*field),
{
    if field.skip_serializing {
        return None;
    }
    match &field.rename {
        Some(name) => Some(name.clone()),
        None => Some(field.ident.clone()),
    }
}


/// The mapping type's identifier, and whether it is generated.
fn get_mapping(ident: &String, attrs: &Vec<Meta>) -> (r: (String, bool))
    ensures
        r.1 == (name_value(attrs@, "mapping"@) is None),
        r.0@ == match name_value(attrs@, "mapping"@) {
            Some(n) => n,
            None => ident@ + "Mapping"@,
        },
{
    match get_name_value(attrs, "mapping") {
        Some(name) => (name, false),
        None => {
            let mut name = ident.clone();
            name.append("Mapping");
            (name, true)
        },
    }
}

/// The index and type-name sources, with their defaults.
fn get_metadata(ident: &String, attrs: &Vec<Meta>) -> (r: MetadataDef)
    ensures
        r.index@ == match method_from_struct(attrs@, "index"@) {
            Some(s) => s,
            None => SourceView::Literal(lower_of(ident@)),
        },
        r.ty@ == match method_from_struct(attrs@, "ty"@) {
            Some(s) => s,
            None => SourceView::Literal("_doc"@),
        },
{
    let index = match get_method_from_struct(attrs, "index") {
        Some(s) => s,
        None => MetadataSource::Literal(to_lowercase(ident.as_str())),
    };
    let ty = match get_method_from_struct(attrs, "ty") {
        Some(s) => s,
        None => MetadataSource::Literal(String::from_str("_doc")),
    };
    MetadataDef { index, ty }
}

/// The id source: an expression first, then the first field marked `id`.
fn get_identity(attrs: &Vec<Meta>, fields: &Vec<FieldDef>) -> (r: Result<
    Option<IdSource>,
    DeriveElasticTypeError,
>)
    ensures
        r is Err <==> method_from_struct(attrs@, "id"@) matches Some(SourceView::Literal(_)),
        r is Err ==> r->Err_0 == DeriveElasticTypeError::IdNotExpression,
        r is Ok ==> id_view(r->Ok_0) == match method_from_struct(attrs@, "id"@) {
            Some(SourceView::Expr(e)) => Some(IdView::Expr(e)),
            _ => match marked_field(fields@, "id"@) {
                Some(f) => Some(IdView::Field(f)),
                None => None,
            },
        },
{
    match get_method_from_struct(attrs, "id") {
        Some(MetadataSource::Literal(_)) => Err(DeriveElasticTypeError::IdNotExpression),
        Some(MetadataSource::Expr(e)) => Ok(Some(IdSource::Expr(e))),
        None => match get_method_from_fields(fields, "id") {
            Some(f) => Ok(Some(IdSource::Field(f))),
            None => Ok(None),
        },
    }
}

/// One property per serialized field, in declaration order.
fn get_properties(fields: Vec<FieldDef>) -> (r: Vec<Property>)
    ensures
        properties_of(r@, fields@),
{
    let ghost fs = fields@;
    let mut fields = fields;
    let mut props: Vec<Property> = Vec::new();
    let mut i: usize = 0;
    let n = fields.len();
    assert(fs.subrange(0, 0) =~= Seq::<FieldDef>::empty());
    assert(fs.subrange(0, n as int) =~= fs);
    while i < n
        invariant
            n == fs.len(),
            0 <= i <= n,
            fields@ == fs.subrange(i as int, n as int),
            properties_of(props@, fs.subrange(0, i as int)),
        decreases n - i,
    {
        let f = fields.remove(0);
        assert(f == fs[i as int]);
        let ghost pre = fs.subrange(0, i + 1);
        assert(pre.drop_last() =~= fs.subrange(0, i as int));
        assert(pre.last() == f);
        assert(fields@ =~= fs.subrange(i + 1, n as int));
        let name = get_ser_field(&f);
        match name {
            None => {},
            Some(name) => {
                let FieldDef { ident: _, ty, skip_serializing: _, rename: _, attrs: _ } = f;
                let mapping = ty.into_mapping();
                let ghost old_props = props@;
                props.push(Property { name, mapping });
                proof {
                    let sf = ser_fields(pre);
                    assert(sf == ser_fields(fs.subrange(0, i as int)).push(f));
                    assert forall|j: int| 0 <= j < props@.len() implies (#[trigger] props@[j]).name@
                        == ser_name(sf[j]) && mapping_json(props@[j].mapping) == type_json(
                        sf[j].ty,
                    ) by {
                        if j < old_props.len() {
                            assert(props@[j] == old_props[j]);
                        }
                    }
                }
            },
        }
        i = i + 1;
    }
    props
}

/// Derives the document type of a type definition.
///
/// Fails with `InvalidInput` unless the type is a record with named fields,
/// and with `IdNotExpression` when its id is annotated as a literal.
pub fn expand_derive(input: TypeDef) -> (r: Result<Document, DeriveElasticTypeError>)
    ensures
        !(input.body is Record) ==> r == Err::<Document, _>(
            DeriveElasticTypeError::InvalidInput,
        ),
        input.body is Record && id_is_literal(input) ==> r == Err::<Document, _>(
            DeriveElasticTypeError::IdNotExpression,
        ),
        input.body is Record && !id_is_literal(input) ==> r is Ok && derived(input, r->Ok_0),
{
    let ghost input0 = input;
    let TypeDef { ident, attrs, body } = input;
    let fields = match body {
        Body::Record(fields) => fields,
        _ => {
            return Err(DeriveElasticTypeError::InvalidInput);
        },
    };
    let identity = match get_identity(&attrs, &fields) {
        Ok(identity) => identity,
        Err(e) => {
            return Err(e);
        },
    };
    let metadata = get_metadata(&ident, &attrs);
    let (mapping_name, mapping_generated) = get_mapping(&ident, &attrs);
    let properties = get_properties(fields);
    let object = ObjectDef { name: ident, mapping_name, mapping_generated, properties };
    Ok(Document { object, metadata, identity })
}


proof fn props_json_congruent(a: Seq<Property>, b: Seq<Property>)
    requires
        a.len() == b.len(),
        forall|i: int|
            0 <= i < a.len() ==> (#[trigger] a[i]).name@ == b[i].name@ && mapping_json(
                a[i].mapping,
            ) == mapping_json(b[i].mapping),
    ensures
        props_json(a) == props_json(b),
    decreases a.len(),
{
    if a.len() > 1 {
        let a0 = a.subrange(0, a.len() - 1);
        let b0 = b.subrange(0, b.len() - 1);
        assert forall|i: int| 0 <= i < a0.len() implies (#[trigger] a0[i]).name@ == b0[i].name@
            && mapping_json(a0[i].mapping) == mapping_json(b0[i].mapping) by {
            assert(a0[i] == a[i] && b0[i] == b[i]);
        }
        props_json_congruent(a0, b0);
        assert(prop_json(a[a.len() - 1]) == prop_json(b[b.len() - 1]));
    } else if a.len() == 1 {
        assert(prop_json(a[0]) == prop_json(b[0]));
    }
}

/// Deriving the same type definition twice yields the same document type:
/// the same mapping name, metadata and id sources, and properties with the
/// same count, order, names and nested mappings, so that the index mappings
/// serialize identically.
pub proof fn derivation_is_deterministic(input: TypeDef, d1: Document, d2: Document)
    requires
        derived(input, d1),
        derived(input, d2),
    ensures
        d1.object.name@ == d2.object.name@,
        d1.object.mapping_name@ == d2.object.mapping_name@,
        d1.object.mapping_generated == d2.object.mapping_generated,
        d1.metadata.index@ == d2.metadata.index@,
        d1.metadata.ty@ == d2.metadata.ty@,
        id_view(d1.identity) == id_view(d2.identity),
        d1.object.properties@.len() == d2.object.properties@.len(),
        forall|i: int|
            0 <= i < d1.object.properties@.len() ==> (#[trigger] d1.object.properties@[i]).name@
                == d2.object.properties@[i].name@ && mapping_json(
                d1.object.properties@[i].mapping,
            ) == mapping_json(d2.object.properties@[i].mapping),
        index_json(d1.object.properties@) == index_json(d2.object.properties@),
{
    let a = d1.object.properties@;
    let b = d2.object.properties@;
    assert forall|i: int| 0 <= i < a.len() implies (#[trigger] a[i]).name@ == b[i].name@
        && mapping_json(a[i].mapping) == mapping_json(b[i].mapping) by {
        assert(b[i] == b[i]);
    }
    props_json_congruent(a, b);
}

/// A record type whose fields are all excluded from serialization (or that
/// has none) has the index mapping `{"properties":{}}`.
pub proof fn empty_record_mapping(input: TypeDef, d: Document)
    requires
        derived(input, d),
        ser_fields(input.body->Record_0@).len() == 0,
    ensures
        index_json(d.object.properties@) == "{\"properties\":{}}"@,
{
    reveal_strlit("{\"properties\":{}}");
    reveal_strlit("{\"properties\":{");
    reveal_strlit("}}");
    assert(props_json(d.object.properties@) == Seq::<char>::empty());
    assert(index_json(d.object.properties@) =~= "{\"properties\":{}}"@);
}

proof fn ser_fields_members(fs: Seq<FieldDef>)
    ensures
        forall|i: int|
            0 <= i < ser_fields(fs).len() ==> exists|j: int|
                0 <= j < fs.len() && !fs[j].skip_serializing && #[trigger] ser_fields(fs)[i]
                    == fs[j],
        forall|j: int|
            0 <= j < fs.len() && !(#[trigger] fs[j]).skip_serializing ==> exists|i: int|
                0 <= i < ser_fields(fs).len() && ser_fields(fs)[i] == fs[j],
    decreases fs.len(),
{
    if fs.len() > 0 {
        let pre = fs.drop_last();
        ser_fields_members(pre);
        let sf = ser_fields(fs);
        let sp = ser_fields(pre);
        assert forall|i: int| 0 <= i < sf.len() implies exists|j: int|
            0 <= j < fs.len() && !fs[j].skip_serializing && #[trigger] sf[i] == fs[j] by {
            if i < sp.len() {
                assert(sf[i] == sp[i]);
                let j = choose|j: int|
                    0 <= j < pre.len() && !pre[j].skip_serializing && #[trigger] sp[i] == pre[j];
                assert(fs[j] == pre[j]);
            } else {
                assert(sf[i] == fs[fs.len() - 1]);
            }
        }
        assert forall|j: int| 0 <= j < fs.len() && !(#[trigger] fs[j]).skip_serializing implies exists|
            i: int,
        | 0 <= i < sf.len() && sf[i] == fs[j] by {
            if j < pre.len() {
                assert(fs[j] == pre[j]);
                let i = choose|i: int| 0 <= i < sp.len() && sp[i] == pre[j];
                assert(sf[i] == sp[i]);
            } else {
                assert(sf[sf.len() - 1] == fs[j]);
            }
        }
    }
}

/// Every property comes from a field that is serialized, under the name it
/// is serialized with; every serialized field has a property, so a renamed
/// field appears under its new name.
pub proof fn exclusion_and_renaming(input: TypeDef, d: Document)
    requires
        derived(input, d),
    ensures
        forall|i: int|
            0 <= i < d.object.properties@.len() ==> exists|j: int|
                0 <= j < input.body->Record_0@.len()
                    && !input.body->Record_0@[j].skip_serializing && (#[trigger] d.object.properties@[i]).name@
                    == ser_name(input.body->Record_0@[j]),
        forall|j: int|
            0 <= j < input.body->Record_0@.len()
                && !(#[trigger] input.body->Record_0@[j]).skip_serializing ==> exists|i: int|
                0 <= i < d.object.properties@.len() && d.object.properties@[i].name@ == ser_name(
                    input.body->Record_0@[j],
                ),
{
    let fs = input.body->Record_0@;
    let ps = d.object.properties@;
    let sf = ser_fields(fs);
    ser_fields_members(fs);
    assert forall|i: int| 0 <= i < ps.len() implies exists|j: int|
        0 <= j < fs.len() && !fs[j].skip_serializing && (#[trigger] ps[i]).name@ == ser_name(fs[j]) by {
        assert(ps[i].name@ == ser_name(sf[i]));
        let j = choose|j: int| 0 <= j < fs.len() && !fs[j].skip_serializing && #[trigger] sf[i] == fs[j];
    }
    assert forall|j: int| 0 <= j < fs.len() && !(#[trigger] fs[j]).skip_serializing implies exists|
        i: int,
    | 0 <= i < ps.len() && ps[i].name@ == ser_name(fs[j]) by {
        let i = choose|i: int| 0 <= i < sf.len() && sf[i] == fs[j];
        assert(ps[i].name@ == ser_name(sf[i]));
    }
}

/// Without `mapping`, `index` or `ty` annotations, a type `Foo` gets the
/// generated mapping type `FooMapping`, the static index `foo` (its
/// lower-cased identifier) and the static type name `_doc`.
pub proof fn default_naming(input: TypeDef, d: Document)
    requires
        derived(input, d),
        name_value(input.attrs@, "mapping"@) is None,
        method_from_struct(input.attrs@, "index"@) is None,
        method_from_struct(input.attrs@, "ty"@) is None,
    ensures
        d.object.mapping_generated,
        d.object.mapping_name@ == input.ident@ + "Mapping"@,
        d.metadata.index@ == SourceView::Literal(lower_of(input.ident@)),
        d.metadata.ty@ == SourceView::Literal("_doc"@),
{
}

/// Index and type name are known without an instance exactly when neither
/// is annotated with an expression; they are then the literal annotations,
/// or the defaults.
pub proof fn static_classification(input: TypeDef, d: Document)
    requires
        derived(input, d),
    ensures
        (crate::document::is_static(d.metadata.index@) && crate::document::is_static(
            d.metadata.ty@,
        )) <==> (!(method_from_struct(input.attrs@, "index"@) matches Some(SourceView::Expr(_)))
            && !(method_from_struct(input.attrs@, "ty"@) matches Some(SourceView::Expr(_)))),
        method_from_struct(input.attrs@, "index"@) matches Some(SourceView::Literal(l))
            ==> d.metadata.index@ == SourceView::Literal(l),
        method_from_struct(input.attrs@, "ty"@) matches Some(SourceView::Literal(l))
            ==> d.metadata.ty@ == SourceView::Literal(l),
{
}

/// An id expression wins over a field marked `id`; without an expression the
/// first serialized field marked `id` is the id; with neither there is no id
/// source and the partial id of every instance is absent.
pub proof fn id_precedence(
    input: TypeDef,
    d: Document,
    values: crate::document::DocumentValues,
)
    requires
        derived(input, d),
    ensures
        method_from_struct(input.attrs@, "id"@) matches Some(SourceView::Expr(e)) ==> id_view(
            d.identity,
        ) == Some(IdView::Expr(e)),
        method_from_struct(input.attrs@, "id"@) is None ==> match marked_field(
            input.body->Record_0@,
            "id"@,
        ) {
            Some(f) => id_view(d.identity) == Some(IdView::Field(f))
                && crate::document::resolve_id(id_view(d.identity), values)
                == crate::document::lookup(values.fields@, f),
            None => d.identity is None && crate::document::resolve_id(
                id_view(d.identity),
                values,
            ) is None,
        },
{
}

} // verus!
