//! What is generated for one backend: the type that stands for the
//! enumeration in queries, and how its tags are written to and read from
//! the backend's values.

use vstd::prelude::*;
use vstd::string::*;
use vstd::utf8::*;

use crate::config::{Backend, TypeConfig, TypeConfigView};
use crate::enum_spec::EnumSpecView;
use crate::error::{DataError, DataErrorView};
use crate::mapping::{
    canonical_mapping_of, lemma_round_trip, tag_view, CanonicalMapping, CanonicalMappingView,
};
use crate::text::lossy_text_of;

verus! {

/// The kind of database value that a generated marker type is declared as.
#[derive(Clone, Debug, PartialEq, Eq)]
pub enum WireKind {
    /// A database type of its own, known to the database under this name.
    Named(String),
    /// The database's general enumeration kind.
    Enum,
    /// The database's general text kind.
    Text,
}

/// A [`WireKind`] with its text as a sequence of characters.
pub enum WireKindView {
    Named(Seq<char>),
    Enum,
    Text,
}

impl View for WireKind {
    type V = WireKindView;

    open spec fn view(&self) -> WireKindView {
        match *self {
            WireKind::Named(name) => WireKindView::Named(name@),
            WireKind::Enum => WireKindView::Enum,
            WireKind::Text => WireKindView::Text,
        }
    }
}

/// The marker type that is generated where the caller names none of their
/// own: a type without data, declared for all three backends at once.
#[derive(Clone, Debug, PartialEq, Eq)]
pub struct MarkerType {
    pub name: String,
    /// The name of the type inside the Postgres database.
    pub postgres_type_name: String,
}

/// A [`MarkerType`] with its texts as sequences of characters.
pub struct MarkerTypeView {
    pub name: Seq<char>,
    pub postgres_type_name: Seq<char>,
}

impl View for MarkerType {
    type V = MarkerTypeView;

    open spec fn view(&self) -> MarkerTypeView {
        MarkerTypeView { name: self.name@, postgres_type_name: self.postgres_type_name@ }
    }
}

impl MarkerTypeView {
    /// The kind of value that the marker is declared as for `backend`.
    pub open spec fn wire_kind(self, backend: Backend) -> WireKindView {
        match backend {
            Backend::Postgres => WireKindView::Named(self.postgres_type_name),
            Backend::Mysql => WireKindView::Enum,
            Backend::Sqlite => WireKindView::Text,
        }
    }
}

impl MarkerType {
    /// The kind of value that the marker is declared as for `backend`.
    pub fn wire_kind(&self, backend: Backend) -> (kind: WireKind)
        ensures
            kind@ == self@.wire_kind(backend),
    {
        match backend {
            Backend::Postgres => WireKind::Named(self.postgres_type_name.clone()),
            Backend::Mysql => WireKind::Enum,
            Backend::Sqlite => WireKind::Text,
        }
    }
}

/// Describes the marker type with the given name, known to Postgres as
/// `pg_internal_type`.
pub fn generate_new_diesel_mapping(new_diesel_mapping: &str, pg_internal_type: &str) -> (marker:
    MarkerType)
    ensures
        marker@ == (MarkerTypeView {
            name: new_diesel_mapping@,
            postgres_type_name: pg_internal_type@,
        }),
{
    MarkerType {
        name: new_diesel_mapping.to_owned(),
        postgres_type_name: pg_internal_type.to_owned(),
    }
}

/// The type that stands for the enumeration in the queries of one backend.
#[derive(Clone, Debug, PartialEq, Eq)]
pub enum StoredType {
    /// The caller's own type, by its path.
    External { path: String },
    /// The generated marker type, as this backend sees it.
    Marker { name: String, wire_kind: WireKind },
}

/// A [`StoredType`] with its texts as sequences of characters.
pub enum StoredTypeView {
    External { path: Seq<char> },
    Marker { name: Seq<char>, wire_kind: WireKindView },
}

impl View for StoredType {
    type V = StoredTypeView;

    open spec fn view(&self) -> StoredTypeView {
        match *self {
            StoredType::External { path } => StoredTypeView::External { path: path@ },
            StoredType::Marker { name, wire_kind } => StoredTypeView::Marker {
                name: name@,
                wire_kind: wire_kind@,
            },
        }
    }
}

impl StoredTypeView {
    /// Whether the generated code gives the type the ability to be copied:
    /// it does so for the marker that it generates, and leaves the caller's
    /// own type as it is.
    pub open spec fn copy_attached(self) -> bool {
        self is Marker
    }
}

impl StoredType {
    /// Whether the generated code gives the type the ability to be copied.
    pub fn attaches_copy(&self) -> (attached: bool)
        ensures
            attached == self@.copy_attached(),
    {
        match self {
            StoredType::External { .. } => false,
            StoredType::Marker { .. } => true,
        }
    }
}

/// A value as a backend hands it over or takes it.
#[derive(Clone, Debug, PartialEq, Eq)]
pub enum RawValue {
    Bytes(Vec<u8>),
    /// A text value of the backend's own.
    Text(String),
}

/// A [`RawValue`] with its content as a sequence.
pub enum RawValueView {
    Bytes(Seq<u8>),
    Text(Seq<char>),
}

impl View for RawValue {
    type V = RawValueView;

    open spec fn view(&self) -> RawValueView {
        match *self {
            RawValue::Bytes(bytes) => RawValueView::Bytes(bytes@),
            RawValue::Text(text) => RawValueView::Text(text@),
        }
    }
}

impl RawValueView {
    /// The bytes of the value: a text gives its UTF-8 encoding.
    pub open spec fn bytes(self) -> Seq<u8> {
        match self {
            RawValueView::Bytes(bytes) => bytes,
            RawValueView::Text(text) => encode_utf8(text),
        }
    }
}

/// The bindings of one enumeration to one backend.
#[derive(Clone, Debug, PartialEq, Eq)]
pub struct BackendArtifact {
    pub backend: Backend,
    pub stored_type: StoredType,
    pub mapping: CanonicalMapping,
}

/// A [`BackendArtifact`] with its texts as sequences of characters.
pub struct BackendArtifactView {
    pub backend: Backend,
    pub stored_type: StoredTypeView,
    pub mapping: CanonicalMappingView,
}

impl View for BackendArtifact {
    type V = BackendArtifactView;

    open spec fn view(&self) -> BackendArtifactView {
        BackendArtifactView {
            backend: self.backend,
            stored_type: self.stored_type@,
            mapping: self.mapping@,
        }
    }
}

/// The marker type that a configuration describes.
pub open spec fn marker_of(config: TypeConfigView) -> MarkerTypeView {
    MarkerTypeView {
        name: config.generated_mapping_name,
        postgres_type_name: config.backend_internal_type_name,
    }
}

/// The type that stands for the enumeration in the queries of `backend`:
/// for Postgres the caller's own type where one is named, and in every
/// other case the generated marker.
pub open spec fn stored_type_of(config: TypeConfigView, backend: Backend) -> StoredTypeView {
    match (backend, config.existing_mapping_reference) {
        (Backend::Postgres, Some(path)) => StoredTypeView::External { path },
        _ => StoredTypeView::Marker {
            name: config.generated_mapping_name,
            wire_kind: marker_of(config).wire_kind(backend),
        },
    }
}

/// The bindings to `backend` that a configuration and a mapping give.
pub open spec fn artifact_of(
    config: TypeConfigView,
    mapping: CanonicalMappingView,
    backend: Backend,
) -> BackendArtifactView {
    BackendArtifactView { backend, stored_type: stored_type_of(config, backend), mapping }
}

impl BackendArtifactView {
    /// What is handed to the backend for the tag at position `tag`: the
    /// tag's text, as a text value for Sqlite and as its bytes elsewhere.
    pub open spec fn written(self, tag: int) -> RawValueView {
        match self.backend {
            Backend::Sqlite => RawValueView::Text(self.mapping.entries[tag].canonical),
            _ => RawValueView::Bytes(self.mapping.encoded(tag)),
        }
    }

    /// The tag that a value of the backend names.
    pub open spec fn read(self, raw: RawValueView) -> Option<int> {
        self.mapping.decoded(raw.bytes())
    }
}

/// The generated marker as `backend` sees it.
fn marker_for(config: &TypeConfig, backend: Backend) -> (stored: StoredType)
    ensures
        stored@ == (StoredTypeView::Marker {
            name: config@.generated_mapping_name,
            wire_kind: marker_of(config@).wire_kind(backend),
        }),
{
    let marker = generate_new_diesel_mapping(
        config.generated_mapping_name.as_str(),
        config.backend_internal_type_name.as_str(),
    );
    let wire_kind = marker.wire_kind(backend);
    StoredType::Marker { name: marker.name, wire_kind }
}

/// The bindings to Postgres. They are written for the caller's own mapping
/// type where the configuration names one, and else for the generated
/// marker under its Postgres type name.
pub fn generate_postgres_impl(config: &TypeConfig, mapping: &CanonicalMapping) -> (artifact:
    BackendArtifact)
    ensures
        artifact@ == artifact_of(config@, mapping@, Backend::Postgres),
{
    let stored_type = match &config.existing_mapping_reference {
        Some(path) => StoredType::External { path: path.clone() },
        None => marker_for(config, Backend::Postgres),
    };
    BackendArtifact { backend: Backend::Postgres, stored_type, mapping: mapping.duplicate() }
}

/// The bindings to Mysql, written for the generated marker as an
/// enumeration value.
pub fn generate_mysql_impl(config: &TypeConfig, mapping: &CanonicalMapping) -> (artifact:
    BackendArtifact)
    ensures
        artifact@ == artifact_of(config@, mapping@, Backend::Mysql),
{
    BackendArtifact {
        backend: Backend::Mysql,
        stored_type: marker_for(config, Backend::Mysql),
        mapping: mapping.duplicate(),
    }
}

/// The bindings to Sqlite, written for the generated marker as a text
/// value.
pub fn generate_sqlite_impl(config: &TypeConfig, mapping: &CanonicalMapping) -> (artifact:
    BackendArtifact)
    ensures
        artifact@ == artifact_of(config@, mapping@, Backend::Sqlite),
{
    BackendArtifact {
        backend: Backend::Sqlite,
        stored_type: marker_for(config, Backend::Sqlite),
        mapping: mapping.duplicate(),
    }
}

impl BackendArtifact {
    /// What is handed to the backend for the tag at position `tag`.
    pub fn to_sql(&self, tag: usize) -> (raw: RawValue)
        requires
            tag < self@.mapping.entries.len(),
        ensures
            raw@ == self@.written(tag as int),
            raw@.bytes() == self@.mapping.encoded(tag as int),
    {
        match self.backend {
            Backend::Sqlite => RawValue::Text(self.mapping.db_str_representation(tag).to_owned()),
            _ => RawValue::Bytes(self.mapping.encode(tag)),
        }
    }

    /// The tag that a value of the backend names. A text value is first
    /// taken as its bytes; the bytes are then looked up in the mapping as
    /// they stand.
    pub fn from_sql(&self, raw: &RawValue) -> (outcome: Result<usize, DataError>)
        ensures
            tag_view(outcome) == (match self@.read(raw@) {
                Some(tag) => Ok::<int, DataErrorView>(tag),
                None => Err(
                    DataErrorView {
                        rendered: lossy_text_of(raw@.bytes()),
                        enum_name: self@.mapping.enum_name,
                    },
                ),
            }),
            outcome matches Err(e) ==> (valid_utf8(raw@.bytes()) ==> e@.rendered == decode_utf8(
                raw@.bytes(),
            )),
            outcome matches Ok(tag) ==> tag < self@.mapping.entries.len(),
    {
        match raw {
            RawValue::Bytes(bytes) => self.mapping.from_db_binary_representation(bytes.as_slice()),
            RawValue::Text(text) => self.mapping.from_db_binary_representation(
                text.as_str().as_bytes(),
            ),
        }
    }

    /// The value of a row that holds one tag and nothing else: the tag.
    pub fn build(&self, row: usize) -> (outcome: Result<usize, DataError>)
        ensures
            outcome == Ok::<usize, DataError>(row),
    {
        Ok(row)
    }
}

/// For each backend, reading back what was written for a tag gives that
/// tag, unless a tag declared later is stored under the same text.
pub proof fn lemma_backend_round_trip(spec: EnumSpecView, backend: Backend, tag: int)
    requires
        0 <= tag < spec.tags.len(),
    ensures
        ({
            let artifact = artifact_of(spec.config, canonical_mapping_of(spec), backend);
            !artifact.mapping.shadowed(tag) <==> artifact.read(artifact.written(tag)) == Some(tag)
        }),
{
    lemma_round_trip(canonical_mapping_of(spec), tag);
}

} // verus!
