//! Everything that is generated for one enumeration, put together.

use vstd::prelude::*;
use vstd::string::*;

use crate::backend::{
    artifact_of, generate_mysql_impl, generate_new_diesel_mapping, generate_postgres_impl,
    generate_sqlite_impl, marker_of, BackendArtifact, BackendArtifactView, MarkerType,
    MarkerTypeView,
};
use crate::config::{Backend, BackendSet, TypeConfigView};
use crate::enum_spec::{EnumSpec, EnumSpecView};
use crate::mapping::{canonical_mapping_of, generate_common, CanonicalMapping, CanonicalMappingView};

verus! {

/// The mapping type of an enumeration, by the way it is referred to.
#[derive(Clone, Debug, PartialEq, Eq)]
pub enum MappingRef {
    /// The caller's own type, by its path.
    Existing { path: String },
    /// The generated marker, by its name.
    Generated { name: String },
}

/// A [`MappingRef`] with its text as a sequence of characters.
pub enum MappingRefView {
    Existing { path: Seq<char> },
    Generated { name: Seq<char> },
}

impl View for MappingRef {
    type V = MappingRefView;

    open spec fn view(&self) -> MappingRefView {
        match *self {
            MappingRef::Existing { path } => MappingRefView::Existing { path: path@ },
            MappingRef::Generated { name } => MappingRefView::Generated { name: name@ },
        }
    }
}

/// What is generated for one enumeration.
#[derive(Clone, Debug, PartialEq, Eq)]
pub struct Bundle {
    /// The name of the module that holds the generated items.
    pub module_name: String,
    /// The mapping between tags and stored texts, shared by all backends.
    pub mapping: CanonicalMapping,
    /// The marker type to define and to export beside the module; `None`
    /// where the caller's own mapping type is used.
    pub marker: Option<MarkerType>,
    /// The mapping type for which the conversions common to all backends
    /// are written.
    pub common_impls_on: MappingRef,
    pub postgres: Option<BackendArtifact>,
    pub mysql: Option<BackendArtifact>,
    pub sqlite: Option<BackendArtifact>,
}

/// A [`Bundle`] with its texts as sequences of characters.
pub struct BundleView {
    pub module_name: Seq<char>,
    pub mapping: CanonicalMappingView,
    pub marker: Option<MarkerTypeView>,
    pub common_impls_on: MappingRefView,
    pub postgres: Option<BackendArtifactView>,
    pub mysql: Option<BackendArtifactView>,
    pub sqlite: Option<BackendArtifactView>,
}

/// The view of bindings that may be absent.
pub open spec fn artifact_view(artifact: Option<BackendArtifact>) -> Option<BackendArtifactView> {
    match artifact {
        Some(a) => Some(a@),
        None => None,
    }
}

/// The view of a marker that may be absent.
pub open spec fn marker_view(marker: Option<MarkerType>) -> Option<MarkerTypeView> {
    match marker {
        Some(m) => Some(m@),
        None => None,
    }
}

impl View for Bundle {
    type V = BundleView;

    open spec fn view(&self) -> BundleView {
        BundleView {
            module_name: self.module_name@,
            mapping: self.mapping@,
            marker: marker_view(self.marker),
            common_impls_on: self.common_impls_on@,
            postgres: artifact_view(self.postgres),
            mysql: artifact_view(self.mysql),
            sqlite: artifact_view(self.sqlite),
        }
    }
}

/// The name of the module that holds what is generated for `enum_name`.
pub open spec fn module_name_of(enum_name: Seq<char>) -> Seq<char> {
    "db_enum_impl_"@ + enum_name
}

/// The mapping type that a configuration settles on.
pub open spec fn mapping_ref_of(config: TypeConfigView) -> MappingRefView {
    match config.existing_mapping_reference {
        Some(path) => MappingRefView::Existing { path },
        None => MappingRefView::Generated { name: config.generated_mapping_name },
    }
}

/// The bindings to `backend`, where it is enabled.
pub open spec fn artifact_if_enabled(
    spec: EnumSpecView,
    backends: BackendSet,
    backend: Backend,
) -> Option<BackendArtifactView> {
    if backends.enables(backend) {
        Some(artifact_of(spec.config, canonical_mapping_of(spec), backend))
    } else {
        None
    }
}

/// What is generated for a checked enumeration and a set of backends: the
/// mapping, the marker type unless the caller's own is used, and bindings
/// for the enabled backends and no others.
pub open spec fn bundle_of(spec: EnumSpecView, backends: BackendSet) -> BundleView {
    BundleView {
        module_name: module_name_of(spec.name),
        mapping: canonical_mapping_of(spec),
        marker: if spec.config.existing_mapping_reference is Some {
            None
        } else {
            Some(marker_of(spec.config))
        },
        common_impls_on: mapping_ref_of(spec.config),
        postgres: artifact_if_enabled(spec, backends, Backend::Postgres),
        mysql: artifact_if_enabled(spec, backends, Backend::Mysql),
        sqlite: artifact_if_enabled(spec, backends, Backend::Sqlite),
    }
}

/// Puts together what is generated for a checked enumeration.
pub fn generate_derive_enum_impls(spec: &EnumSpec, backends: BackendSet) -> (bundle: Bundle)
    ensures
        bundle@ == bundle_of(spec@, backends),
{
    let module_name = String::from_str("db_enum_impl_").concat(spec.name.as_str());
    let mapping = generate_common(spec);
    let config = &spec.config;
    let (marker, common_impls_on) = match &config.existing_mapping_reference {
        Some(path) => (None, MappingRef::Existing { path: path.clone() }),
        None => (
            Some(
                generate_new_diesel_mapping(
                    config.generated_mapping_name.as_str(),
                    config.backend_internal_type_name.as_str(),
                ),
            ),
            MappingRef::Generated { name: config.generated_mapping_name.clone() },
        ),
    };
    let postgres = if backends.postgres {
        Some(generate_postgres_impl(config, &mapping))
    } else {
        None
    };
    let mysql = if backends.mysql {
        Some(generate_mysql_impl(config, &mapping))
    } else {
        None
    };
    let sqlite = if backends.sqlite {
        Some(generate_sqlite_impl(config, &mapping))
    } else {
        None
    };
    Bundle { module_name, mapping, marker, common_impls_on, postgres, mysql, sqlite }
}

} // verus!
