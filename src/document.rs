//! Document types: their mapping and their identity metadata (index, type
//! name and id), resolved either without an instance or from one.

use vstd::prelude::*;
use crate::field::{FieldType, WrapperKind};
use crate::mapping::{index_json, index_text, Mapping, Property};

verus! {

/// Where an index or type name comes from.
pub enum MetadataSource {
    /// A constant, known without an instance.
    Literal(String),
    /// An instance method, named by its path.
    Expr(String),
}

/// Where a document's id comes from.
pub enum IdSource {
    /// An instance method, named by its path.
    Expr(String),
    /// A field of the document, named by its identifier.
    Field(String),
}

/// A resolved source of metadata, as text.
pub enum SourceView {
    Literal(Seq<char>),
    Expr(Seq<char>),
}

impl View for MetadataSource {
    type V = SourceView;

    open spec fn view(&self) -> SourceView {
        match *self {
            MetadataSource::Literal(s) => SourceView::Literal(s@),
            MetadataSource::Expr(s) => SourceView::Expr(s@),
        }
    }
}

/// A resolved source of a document's id, as text.
pub enum IdView {
    Expr(Seq<char>),
    Field(Seq<char>),
}

impl View for IdSource {
    type V = IdView;

    open spec fn view(&self) -> IdView {
        match *self {
            IdSource::Expr(s) => IdView::Expr(s@),
            IdSource::Field(s) => IdView::Field(s@),
        }
    }
}

/// The view of an optional id source.
pub open spec fn id_view(id: Option<IdSource>) -> Option<IdView> {
    match id {
        Some(i) => Some(i@),
        None => None,
    }
}

/// A named text value of a document instance.
pub struct NamedValue {
    pub name: String,
    pub value: String,
}

/// What the metadata accessors read from a document instance: the text of
/// its fields, by identifier, and the results of its instance methods, by
/// path.
pub struct DocumentValues {
    pub fields: Vec<NamedValue>,
    pub exprs: Vec<NamedValue>,
}

/// The value of the first entry with the given name.
pub open spec fn lookup(vs: Seq<NamedValue>, name: Seq<char>) -> Option<Seq<char>>
    decreases vs.len(),
{
    if vs.len() == 0 {
        None
    } else if vs[0].name@ == name {
        Some(vs[0].value@)
    } else {
        lookup(vs.drop_first(), name)
    }
}

/// The value of an index or type name for an instance.
pub open spec fn resolve(src: SourceView, values: DocumentValues) -> Option<Seq<char>> {
    match src {
        SourceView::Literal(s) => Some(s),
        SourceView::Expr(e) => lookup(values.exprs@, e),
    }
}

/// The id of an instance, if the document type has an id source.
pub open spec fn resolve_id(id: Option<IdView>, values: DocumentValues) -> Option<Seq<char>> {
    match id {
        None => None,
        Some(IdView::Expr(e)) => lookup(values.exprs@, e),
        Some(IdView::Field(f)) => lookup(values.fields@, f),
    }
}

/// Whether a source is known without an instance.
pub open spec fn is_static(src: SourceView) -> bool {
    src is Literal
}

fn named_value(vs: &Vec<NamedValue>, name: &String) -> (r: Option<String>)
    ensures
        r.deep_view() == lookup(vs@, name@),
{
    let mut i: usize = 0;
    assert(vs@.subrange(0, vs@.len() as int) =~= vs@);
    while i < vs.len()
        invariant
            0 <= i <= vs@.len(),
            lookup(vs@, name@) == lookup(vs@.subrange(i as int, vs@.len() as int), name@),
        decreases vs@.len() - i,
    {
        let ghost rest = vs@.subrange(i as int, vs@.len() as int);
        assert(rest.drop_first() =~= vs@.subrange(i + 1, vs@.len() as int));
        assert(rest[0] == vs@[i as int]);
        if vs[i].name == *name {
            return Some(vs[i].value.clone());
        }
        i = i + 1;
    }
    None
}

fn resolve_source(src: &MetadataSource, values: &DocumentValues) -> (r: Option<String>)
    ensures
        r.deep_view() == resolve(src@, *values),
{
    match src {
        MetadataSource::Literal(s) => Some(s.clone()),
        MetadataSource::Expr(e) => named_value(&values.exprs, e),
    }
}

/// A type with a record-shaped mapping.
pub trait ObjectType {
    /// The properties of its mapping.
    spec fn props(&self) -> Seq<Property>;

    /// The properties of its mapping, one per serialized field, in order.
    fn properties(&self) -> (r: &Vec<Property>)
        ensures
            r@ == self.props(),
    ;
}

/// A type whose instances may carry an id.
pub trait PartialIdentity {
    /// Where the id comes from, if anywhere.
    spec fn id_source(&self) -> Option<IdView>;

    /// The id of an instance, or absent when there is no id source.
    fn partial_id(&self, values: &DocumentValues) -> (r: Option<String>)
        ensures
            r.deep_view() == resolve_id(self.id_source(), *values),
    ;
}

/// A type whose instances have an id.
pub trait Identity: PartialIdentity {
    /// The id of an instance; absent only when the value it reads is not
    /// among the values.
    fn id(&self, values: &DocumentValues) -> (r: Option<String>)
        requires
            self.id_source() is Some,
        ensures
            r.deep_view() == resolve_id(self.id_source(), *values),
    ;
}

/// Index and type name, resolved per instance.
pub trait InstanceDocumentMetadata: PartialIdentity {
    spec fn index_source(&self) -> SourceView;

    spec fn ty_source(&self) -> SourceView;

    /// The index name for an instance; absent when it comes from an instance
    /// method whose result is not among the values.
    fn index(&self, values: &DocumentValues) -> (r: Option<String>)
        ensures
            r.deep_view() == resolve(self.index_source(), *values),
    ;

    /// The type name for an instance.
    fn ty(&self, values: &DocumentValues) -> (r: Option<String>)
        ensures
            r.deep_view() == resolve(self.ty_source(), *values),
    ;
}

/// Whether index and type name are both known without an instance.
pub open spec fn has_static_metadata<T: InstanceDocumentMetadata + ?Sized>(t: &T) -> bool {
    is_static(t.index_source()) && is_static(t.ty_source())
}

/// Index and type name known without an instance: present exactly when both
/// are constants.
pub trait StaticDocumentMetadata: InstanceDocumentMetadata {
    fn static_index(&self) -> (r: Option<String>)
        ensures
            r is Some <==> has_static_metadata(self),
            r is Some ==> self.index_source() == SourceView::Literal(r->Some_0@),
    ;

    fn static_ty(&self) -> (r: Option<String>)
        ensures
            r is Some <==> has_static_metadata(self),
            r is Some ==> self.ty_source() == SourceView::Literal(r->Some_0@),
    ;
}

/// An indexable document type.
pub trait DocumentType: ObjectType + InstanceDocumentMetadata {
    /// The JSON text of the index mapping: `{"properties": {...}}`.
    fn index_mapping(&self) -> (r: String)
        ensures
            r@ == index_json(self.props()),
    ;
}

/// The mapping side of a derived document type.
pub struct ObjectDef {
    /// The identifier of the type.
    pub name: String,
    /// The identifier of its mapping type.
    pub mapping_name: String,
    /// Whether the mapping type is generated rather than named by the user.
    pub mapping_generated: bool,
    /// Its properties, one per serialized field, in declaration order.
    pub properties: Vec<Property>,
}

/// The index and type-name sources of a derived document type.
pub struct MetadataDef {
    pub index: MetadataSource,
    pub ty: MetadataSource,
}

/// A derived document type: its mapping and its identity metadata.
pub struct Document {
    pub object: ObjectDef,
    pub metadata: MetadataDef,
    /// The id source; without one, the type has only a partial identity,
    /// which is always absent.
    pub identity: Option<IdSource>,
}

fn static_source(src: &MetadataSource, other: &MetadataSource) -> (r: Option<String>)
    ensures
        r is Some <==> (is_static(src@) && is_static(other@)),
        r is Some ==> src@ == SourceView::Literal(r->Some_0@),
{
    match (src, other) {
        (MetadataSource::Literal(s), MetadataSource::Literal(_)) => Some(s.clone()),
        _ => None,
    }
}

impl ObjectType for Document {
    open spec fn props(&self) -> Seq<Property> {
        self.object.properties@
    }

    fn properties(&self) -> (r: &Vec<Property>) {
        &self.object.properties
    }
}

impl PartialIdentity for Document {
    open spec fn id_source(&self) -> Option<IdView> {
        id_view(self.identity)
    }

    fn partial_id(&self, values: &DocumentValues) -> (r: Option<String>) {
        match &self.identity {
            None => None,
            Some(IdSource::Expr(e)) => named_value(&values.exprs, e),
            Some(IdSource::Field(f)) => named_value(&values.fields, f),
        }
    }
}

impl Identity for Document {
    fn id(&self, values: &DocumentValues) -> (r: Option<String>) {
        self.partial_id(values)
    }
}

impl InstanceDocumentMetadata for Document {
    open spec fn index_source(&self) -> SourceView {
        self.metadata.index@
    }

    open spec fn ty_source(&self) -> SourceView {
        self.metadata.ty@
    }

    fn index(&self, values: &DocumentValues) -> (r: Option<String>) {
        resolve_source(&self.metadata.index, values)
    }

    fn ty(&self, values: &DocumentValues) -> (r: Option<String>) {
        resolve_source(&self.metadata.ty, values)
    }
}

impl StaticDocumentMetadata for Document {
    fn static_index(&self) -> (r: Option<String>) {
        static_source(&self.metadata.index, &self.metadata.ty)
    }

    fn static_ty(&self) -> (r: Option<String>) {
        static_source(&self.metadata.ty, &self.metadata.index)
    }
}

impl DocumentType for Document {
    fn index_mapping(&self) -> (r: String) {
        index_text(&self.object.properties)
    }
}

impl Document {
    /// The declared type of a field that holds this document: a nested
    /// object with the document's properties.
    pub fn into_field_type(self) -> (r: FieldType)
        ensures
            r is Mapped,
            r->Mapped_0.data_type@ == "nested"@,
            r->Mapped_0.params@.len() == 0,
            r->Mapped_0.fields@.len() == 0,
            r->Mapped_0.properties@ == self.object.properties@,
    {
        FieldType::Mapped(Mapping::object("nested", self.object.properties))
    }
}

/// A value held in a transparent container (a reference, a copy-on-write
/// value, a lock); every capability is forwarded to the value it holds.
pub struct Wrapped<T> {
    pub kind: WrapperKind,
    pub inner: T,
}

impl<T: ObjectType> ObjectType for Wrapped<T> {
    open spec fn props(&self) -> Seq<Property> {
        self.inner.props()
    }

    fn properties(&self) -> (r: &Vec<Property>) {
        self.inner.properties()
    }
}

impl<T: PartialIdentity> PartialIdentity for Wrapped<T> {
    open spec fn id_source(&self) -> Option<IdView> {
        self.inner.id_source()
    }

    fn partial_id(&self, values: &DocumentValues) -> (r: Option<String>) {
        self.inner.partial_id(values)
    }
}

impl<T: Identity> Identity for Wrapped<T> {
    fn id(&self, values: &DocumentValues) -> (r: Option<String>) {
        self.inner.id(values)
    }
}

impl<T: InstanceDocumentMetadata> InstanceDocumentMetadata for Wrapped<T> {
    open spec fn index_source(&self) -> SourceView {
        self.inner.index_source()
    }

    open spec fn ty_source(&self) -> SourceView {
        self.inner.ty_source()
    }

    fn index(&self, values: &DocumentValues) -> (r: Option<String>) {
        self.inner.index(values)
    }

    fn ty(&self, values: &DocumentValues) -> (r: Option<String>) {
        self.inner.ty(values)
    }
}

impl<T: StaticDocumentMetadata> StaticDocumentMetadata for Wrapped<T> {
    fn static_index(&self) -> (r: Option<String>) {
        self.inner.static_index()
    }

    fn static_ty(&self) -> (r: Option<String>) {
        self.inner.static_ty()
    }
}

impl<T: DocumentType> DocumentType for Wrapped<T> {
    fn index_mapping(&self) -> (r: String) {
        self.inner.index_mapping()
    }
}

/// A wrapped document type has the same index mapping, metadata and id
/// sources as the document type it holds, so it serializes identically.
pub proof fn wrapper_is_transparent<T: DocumentType + StaticDocumentMetadata + Identity>(
    w: Wrapped<T>,
)
    ensures
        index_json(w.props()) == index_json(w.inner.props()),
        w.index_source() == w.inner.index_source(),
        w.ty_source() == w.inner.ty_source(),
        w.id_source() == w.inner.id_source(),
        has_static_metadata(&w) == has_static_metadata(&w.inner),
{
}

} // verus!
