use elastic_types::derive::{expand_derive, Body, DeriveElasticTypeError, FieldDef, Meta, TypeDef};
use elastic_types::document::{
    Document, DocumentType, DocumentValues, Identity, InstanceDocumentMetadata, NamedValue,
    PartialIdentity, StaticDocumentMetadata, Wrapped,
};
use elastic_types::field::{FieldType, WrapperKind};
use elastic_types::mapping::{Dynamic, ValueObjectMapping};

fn s(t: &str) -> String {
    t.to_string()
}

fn field(name: &str, ty: FieldType) -> FieldDef {
    FieldDef { ident: s(name), ty, skip_serializing: false, rename: None, attrs: vec![] }
}

fn record(ident: &str, attrs: Vec<Meta>, fields: Vec<FieldDef>) -> TypeDef {
    TypeDef { ident: s(ident), attrs, body: Body::Record(fields) }
}

fn name_value(k: &str, v: &str) -> Meta {
    Meta::NameValue(s(k), s(v))
}

fn expr_list(k: &str, v: &str) -> Meta {
    Meta::List(s(k), vec![name_value("expr", v)])
}

fn derive(def: TypeDef) -> Document {
    expand_derive(def).unwrap()
}

fn simple_nested_type() -> Document {
    derive(record("SimpleNestedType", vec![], vec![field("field", FieldType::Integer)]))
}

fn simple_type() -> Document {
    derive(record(
        "SimpleType",
        vec![],
        vec![
            field("field1", FieldType::Date(s("epoch_millis"))),
            field("field2", simple_nested_type().into_field_type()),
        ],
    ))
}

fn custom_type() -> Document {
    let mut ignored = field("ignored_field", FieldType::Integer);
    ignored.skip_serializing = true;
    let mut renamed = field("field2", FieldType::Integer);
    renamed.rename = Some(s("renamed_field"));
    derive(record(
        "CustomType",
        vec![name_value("mapping", "ManualCustomTypeMapping")],
        vec![field("field", FieldType::Integer), ignored, renamed],
    ))
}

fn no_values() -> DocumentValues {
    DocumentValues { fields: vec![], exprs: vec![] }
}

fn value(name: &str, v: &str) -> NamedValue {
    NamedValue { name: s(name), value: s(v) }
}

const SIMPLE_TYPE_JSON: &str = "{\"properties\":{\"field1\":{\"type\":\"date\",\"format\":\"epoch_millis\"},\"field2\":{\"type\":\"nested\",\"properties\":{\"field\":{\"type\":\"integer\"}}}}}";

#[test]
fn use_doc_as_generic_without_supplying_mapping_param() {
    let doc = simple_type();
    assert!(doc.object.mapping_generated);
}

#[test]
fn get_type_name() {
    assert_eq!(Some(s("simpletype")), simple_type().static_index());
}

#[test]
fn get_default_type_name() {
    assert_eq!(Some(s("simpletype")), simple_type().index(&no_values()));
}

#[test]
fn get_custom_type_name() {
    let doc = derive(record(
        "CustomType",
        vec![name_value("index", "renamed_type")],
        vec![field("field", FieldType::Integer)],
    ));
    assert_eq!(Some(s("renamed_type")), doc.index(&no_values()));
}

#[test]
fn get_value_type_name() {
    let doc = derive(record("Value", vec![], vec![]));
    assert_eq!(Some(s("value")), doc.index(&no_values()));
}

#[test]
fn derive_custom_type_mapping() {
    let doc = custom_type();
    assert_eq!("ManualCustomTypeMapping", doc.object.mapping_name);
    assert!(!doc.object.mapping_generated);
}

#[test]
fn serialise_document() {
    assert_eq!(SIMPLE_TYPE_JSON, simple_type().index_mapping());
}

fn wrapped_mapping(kind: WrapperKind) -> String {
    Wrapped { kind, inner: simple_type() }.index_mapping()
}

#[test]
fn serialise_document_borrowed() {
    assert_eq!(simple_type().index_mapping(), wrapped_mapping(WrapperKind::Reference));
}

#[test]
fn wrapped_document_forwards_metadata() {
    let doc = derive(record("Foo", vec![], vec![id_marked("key")]));
    let w = Wrapped { kind: WrapperKind::Mutex, inner: doc };
    let values = DocumentValues { fields: vec![value("key", "k1")], exprs: vec![] };
    assert_eq!(Some(s("foo")), w.index(&values));
    assert_eq!(Some(s("_doc")), w.ty(&values));
    assert_eq!(Some(s("foo")), w.static_index());
    assert_eq!(Some(s("_doc")), w.static_ty());
    assert_eq!(Some(s("k1")), w.id(&values));
    assert_eq!(Some(s("k1")), w.partial_id(&values));
}

#[test]
fn serialise_document_mutex() {
    assert_eq!(simple_type().index_mapping(), wrapped_mapping(WrapperKind::Mutex));
}

#[test]
fn serialise_document_rwlock() {
    assert_eq!(simple_type().index_mapping(), wrapped_mapping(WrapperKind::RwLock));
}

#[test]
fn serialise_document_cow() {
    assert_eq!(simple_type().index_mapping(), wrapped_mapping(WrapperKind::CopyOnWrite));
}

#[test]
fn serialise_document_with_no_props() {
    let doc = derive(record("NoProps", vec![], vec![]));
    assert_eq!("{\"properties\":{}}", doc.index_mapping());
}

#[test]
fn serialise_document_for_custom_mapping() {
    let expected = "{\"properties\":{\"field\":{\"type\":\"integer\"},\"renamed_field\":{\"type\":\"integer\"}}}";
    assert_eq!(expected, custom_type().index_mapping());
}

#[test]
fn serialise_document_for_value() {
    assert_eq!("{\"properties\":{}}", ValueObjectMapping::index_mapping().to_json());
}

#[test]
fn serialise_mapping_with_wrapped_types() {
    let doc = derive(record(
        "Wrapped",
        vec![],
        vec![
            field("field1", FieldType::Sequence(Box::new(FieldType::Integer))),
            field("field2", FieldType::Optional(Box::new(FieldType::Boolean))),
            field("field3", FieldType::Wrapped(WrapperKind::Reference, Box::new(FieldType::Text))),
            field("field4", FieldType::Value),
            field("field5", FieldType::Optional(Box::new(simple_nested_type().into_field_type()))),
        ],
    ));
    let expected = "{\"properties\":{\"field1\":{\"type\":\"integer\"},\"field2\":{\"type\":\"boolean\"},\"field3\":{\"type\":\"text\",\"fields\":{\"keyword\":{\"type\":\"keyword\",\"ignore_above\":256}}},\"field4\":{\"type\":\"nested\"},\"field5\":{\"type\":\"nested\",\"properties\":{\"field\":{\"type\":\"integer\"}}}}}";
    assert_eq!(expected, doc.index_mapping());
}

#[test]
fn serialise_index_mapping() {
    let ser = format!("{{\"mappings\":{{\"simpletype\":{}}}}}", simple_type().index_mapping());
    let expected = "{\"mappings\":{\"simpletype\":{\"properties\":{\"field1\":{\"type\":\"date\",\"format\":\"epoch_millis\"},\"field2\":{\"type\":\"nested\",\"properties\":{\"field\":{\"type\":\"integer\"}}}}}}}";
    assert_eq!(expected, ser);
}

#[test]
fn serialise_mapping_dynamic() {
    let d_opts: Vec<String> =
        vec![Dynamic::True, Dynamic::False, Dynamic::Strict].iter().map(|i| i.to_json()).collect();
    let expected_opts = vec![r#"true"#, r#"false"#, r#""strict""#];
    let mut success = true;
    for i in 0..d_opts.len() {
        if expected_opts[i] != d_opts[i] {
            success = false;
            break;
        }
    }
    assert!(success);
}

#[test]
fn derivation_twice_gives_same_mapping() {
    let a = simple_type();
    let b = simple_type();
    assert_eq!(a.index_mapping(), b.index_mapping());
    assert_eq!(a.object.properties.len(), b.object.properties.len());
    assert_eq!(a.object.mapping_name, b.object.mapping_name);
}

#[test]
fn wrapped_field_keeps_mapping() {
    for kind in [
        WrapperKind::Reference,
        WrapperKind::CopyOnWrite,
        WrapperKind::Mutex,
        WrapperKind::RwLock,
        WrapperKind::Boxed,
        WrapperKind::Shared,
    ] {
        let wrapped = FieldType::Wrapped(kind, Box::new(FieldType::Long)).into_mapping().to_json();
        assert_eq!(FieldType::Long.into_mapping().to_json(), wrapped);
    }
}

#[test]
fn default_naming_of_foo() {
    let doc = derive(record("Foo", vec![], vec![field("a", FieldType::Short)]));
    assert_eq!("FooMapping", doc.object.mapping_name);
    assert!(doc.object.mapping_generated);
    assert_eq!(Some(s("foo")), doc.static_index());
    assert_eq!(Some(s("_doc")), doc.static_ty());
}

#[test]
fn literal_annotations_are_static() {
    let doc = derive(record(
        "Foo",
        vec![name_value("index", "idx"), name_value("ty", "kind")],
        vec![],
    ));
    assert_eq!(Some(s("idx")), doc.static_index());
    assert_eq!(Some(s("kind")), doc.static_ty());
    assert_eq!(Some(s("kind")), doc.ty(&no_values()));
}

#[test]
fn expression_index_is_dynamic() {
    let doc = derive(record(
        "DerivedDocument",
        vec![expr_list("index", "DerivedDocument::index"), name_value("ty", "doc")],
        vec![field("field1", FieldType::Text), field("field2", FieldType::Integer)],
    ));
    assert!(doc.static_index().is_none());
    assert!(doc.static_ty().is_none());
    let values = DocumentValues {
        fields: vec![],
        exprs: vec![value("DerivedDocument::index", "idx-7")],
    };
    assert_eq!(Some(s("idx-7")), doc.index(&values));
    assert_eq!(Some(s("doc")), doc.ty(&values));
    assert_eq!(None, doc.index(&no_values()));
}

#[test]
fn expression_ty_is_dynamic() {
    let doc = derive(record("Foo", vec![expr_list("ty", "Foo::ty")], vec![]));
    assert!(doc.static_index().is_none());
    assert!(doc.static_ty().is_none());
    let values = DocumentValues { fields: vec![], exprs: vec![value("Foo::ty", "t1")] };
    assert_eq!(Some(s("t1")), doc.ty(&values));
    assert_eq!(Some(s("foo")), doc.index(&values));
}

fn id_marked(name: &str) -> FieldDef {
    let mut f = field(name, FieldType::Text);
    f.attrs = vec![Meta::Word(s("id"))];
    f
}

#[test]
fn id_expression_wins_over_marked_field() {
    let doc = derive(record("Foo", vec![expr_list("id", "Foo::id")], vec![id_marked("key")]));
    let values = DocumentValues {
        fields: vec![value("key", "from-field")],
        exprs: vec![value("Foo::id", "from-expr")],
    };
    assert_eq!(Some(s("from-expr")), doc.id(&values));
    assert_eq!(Some(s("from-expr")), doc.partial_id(&values));
}

#[test]
fn id_from_marked_field() {
    let doc = derive(record(
        "Foo",
        vec![],
        vec![field("other", FieldType::Integer), id_marked("key"), id_marked("second")],
    ));
    let values = DocumentValues {
        fields: vec![value("other", "1"), value("key", "abc"), value("second", "def")],
        exprs: vec![],
    };
    assert!(doc.identity.is_some());
    assert_eq!(Some(s("abc")), doc.id(&values));
    assert_eq!(Some(s("abc")), doc.partial_id(&values));
}

#[test]
fn excluded_marked_field_is_no_id() {
    let mut key = id_marked("key");
    key.skip_serializing = true;
    let doc = derive(record("Foo", vec![], vec![key]));
    assert!(doc.identity.is_none());
}

#[test]
fn no_id_source_gives_no_partial_id() {
    let doc = derive(record("Foo", vec![], vec![field("key", FieldType::Text)]));
    let values = DocumentValues { fields: vec![value("key", "abc")], exprs: vec![] };
    assert!(doc.identity.is_none());
    assert_eq!(None, doc.partial_id(&values));
}

#[test]
fn id_literal_is_refused() {
    let r = expand_derive(record("Foo", vec![name_value("id", "x")], vec![]));
    assert!(matches!(r, Err(DeriveElasticTypeError::IdNotExpression)));
}

#[test]
fn non_record_is_refused() {
    for body in [Body::Enum(vec![s("A")]), Body::Unit, Body::Tuple(vec![FieldType::Integer])] {
        let r = expand_derive(TypeDef { ident: s("Foo"), attrs: vec![], body });
        assert!(matches!(r, Err(DeriveElasticTypeError::InvalidInput)));
    }
}

#[test]
fn invalid_input_before_id_literal() {
    let r = expand_derive(TypeDef {
        ident: s("Foo"),
        attrs: vec![name_value("id", "x")],
        body: Body::Unit,
    });
    assert!(matches!(r, Err(DeriveElasticTypeError::InvalidInput)));
}

#[test]
fn excluded_fields_never_appear() {
    let mut hidden = field("hidden", FieldType::Integer);
    hidden.skip_serializing = true;
    let doc = derive(record("Foo", vec![], vec![hidden]));
    assert_eq!("{\"properties\":{}}", doc.index_mapping());
}

#[test]
fn end_to_end_example() {
    assert_eq!(
        "{\"properties\":{\"field1\":{\"type\":\"date\",\"format\":\"epoch_millis\"},\"field2\":{\"type\":\"nested\",\"properties\":{\"field\":{\"type\":\"integer\"}}}}}",
        simple_type().index_mapping()
    );
}

#[test]
fn names_are_escaped() {
    let doc = derive(record("Foo", vec![], vec![field("a\"b", FieldType::Byte)]));
    assert_eq!("{\"properties\":{\"a\\\"b\":{\"type\":\"byte\"}}}", doc.index_mapping());
}

#[test]
fn first_literal_annotation_wins() {
    let doc = derive(record(
        "Foo",
        vec![expr_list("index", "Foo::index"), name_value("index", "lit")],
        vec![],
    ));
    assert_eq!(Some(s("lit")), doc.static_index());
}

#[test]
fn float_and_double_leaves() {
    assert_eq!("{\"type\":\"float\"}", FieldType::Float.into_mapping().to_json());
    assert_eq!("{\"type\":\"double\"}", FieldType::Double.into_mapping().to_json());
}

#[test]
fn error_messages() {
    assert_eq!(
        "deriving a document type is only valid for structs",
        DeriveElasticTypeError::InvalidInput.message()
    );
    assert!(DeriveElasticTypeError::IdNotExpression.message().contains("id(expr"));
}
