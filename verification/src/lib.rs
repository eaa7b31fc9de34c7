//! Canonical text codecs for closed sets of symbolic tags, and the
//! description of the per-backend bindings that carry them to a database.
//!
//! An enumeration is declared with options on the type and on its tags.
//! [`derive`] checks the options, settles the text under which each tag is
//! stored, and describes what is to be generated for each enabled backend.

use vstd::prelude::*;

pub mod backend;
pub mod bundle;
pub mod case_style;
pub mod config;
pub mod directive;
pub mod enum_spec;
pub mod error;
pub mod mapping;
pub mod text;

use crate::bundle::{bundle_of, generate_derive_enum_impls, Bundle, BundleView};
use crate::config::{resolved_config, BackendSet};
use crate::directive::{lookup, OptionKey};
use crate::enum_spec::{first_payload, lemma_first_payload, resolved, EnumInput, EnumSpec};
use crate::error::{ConfigError, ConfigErrorView};

verus! {

/// What is generated for a declared item, or the reason to refuse it.
/// Nothing is generated for an item that is refused.
pub open spec fn derived(input: EnumInput, backends: BackendSet) -> Result<
    BundleView,
    ConfigErrorView,
> {
    match resolved(input, backends) {
        Ok(spec) => Ok(bundle_of(spec, backends)),
        Err(e) => Err(e),
    }
}

/// A result of deriving, with its texts as sequences of characters.
pub open spec fn bundle_view(outcome: Result<Bundle, ConfigError>) -> Result<
    BundleView,
    ConfigErrorView,
> {
    match outcome {
        Ok(bundle) => Ok(bundle@),
        Err(e) => Err(e@),
    }
}

/// Checks a declared item and describes what is generated for it and for
/// the enabled backends.
pub fn derive(input: &EnumInput, backends: BackendSet) -> (outcome: Result<Bundle, ConfigError>)
    ensures
        bundle_view(outcome) == derived(*input, backends),
{
    match EnumSpec::resolve(input, backends) {
        Ok(spec) => Ok(generate_derive_enum_impls(&spec, backends)),
        Err(e) => Err(e),
    }
}

/// An item that names both an existing mapping type and a database type is
/// refused, whatever else it holds.
pub proof fn lemma_existing_mapping_excludes_internal_type_name(
    input: EnumInput,
    backends: BackendSet,
)
    requires
        lookup(input.directives@, OptionKey::ExistingMappingReference) is Found,
        lookup(input.directives@, OptionKey::BackendInternalTypeName) is Found,
    ensures
        derived(input, backends) == Err::<BundleView, ConfigErrorView>(
            if backends.postgres {
                ConfigErrorView::ExistingMappingWithInternalTypeName
            } else {
                ConfigErrorView::ExistingMappingWithoutPostgres
            },
        ),
{
}

/// An item that names both an existing mapping type and a name for a new
/// one is refused, whatever else it holds.
pub proof fn lemma_existing_mapping_excludes_generated_name(input: EnumInput, backends: BackendSet)
    requires
        lookup(input.directives@, OptionKey::ExistingMappingReference) is Found,
        lookup(input.directives@, OptionKey::GeneratedMappingName) is Found,
    ensures
        derived(input, backends) is Err,
{
}

/// An enumeration with a tag that carries data is refused. Where the
/// options on the type are in order, the error names the first such tag.
pub proof fn lemma_payload_refused(input: EnumInput, backends: BackendSet, tag: int)
    requires
        input.tags is Some,
        0 <= tag < input.tags->0@.len(),
        input.tags->0@[tag].has_payload,
    ensures
        derived(input, backends) is Err,
        first_payload(input.tags->0@) matches Some(first) && 0 <= first <= tag
            && input.tags->0@[first].has_payload && (resolved_config(
            input.name@,
            input.directives@,
            backends,
        ) is Ok ==> derived(input, backends) == Err::<BundleView, ConfigErrorView>(
            ConfigErrorView::TagHasPayload { tag: input.tags->0@[first].identifier@ },
        )),
{
    lemma_first_payload(input.tags->0@);
}

} // verus!
