//! From an enumeration as it was declared, with the options written on it,
//! to a configuration in which every choice has been made.

use vstd::prelude::*;
use vstd::string::*;

use crate::case_style::{snake_case_of, to_snake_case, CaseStyle};
use crate::directive::{lookup, val_from_attrs, Directive, Lookup, OptionKey};
use crate::error::{ConfigError, ConfigErrorView};

verus! {

/// The storage engines for which bindings can be generated.
#[derive(Clone, Copy, Debug, PartialEq, Eq, Structural)]
pub enum Backend {
    Postgres,
    Mysql,
    Sqlite,
}

/// Which backends bindings are generated for.
#[derive(Clone, Copy, Debug, PartialEq, Eq, Structural)]
pub struct BackendSet {
    pub postgres: bool,
    pub mysql: bool,
    pub sqlite: bool,
}

impl BackendSet {
    /// Whether `backend` is in the set.
    pub open spec fn enables(self, backend: Backend) -> bool {
        match backend {
            Backend::Postgres => self.postgres,
            Backend::Mysql => self.mysql,
            Backend::Sqlite => self.sqlite,
        }
    }

    /// Whether `backend` is in the set.
    pub fn contains(&self, backend: Backend) -> (enabled: bool)
        ensures
            enabled == self.enables(backend),
    {
        match backend {
            Backend::Postgres => self.postgres,
            Backend::Mysql => self.mysql,
            Backend::Sqlite => self.sqlite,
        }
    }
}

/// The choices made for one enumeration as a whole.
#[derive(Clone, Debug, PartialEq, Eq)]
pub struct TypeConfig {
    /// The path of the caller's own mapping type, where one is reused.
    pub existing_mapping_reference: Option<String>,
    /// The name of the mapping type that is generated where none is reused.
    pub generated_mapping_name: String,
    /// The style that gives a tag without an override its database value.
    pub case_style: CaseStyle,
    /// The name of the type inside the Postgres database.
    pub backend_internal_type_name: String,
}

/// A [`TypeConfig`] with its texts as sequences of characters.
pub struct TypeConfigView {
    pub existing_mapping_reference: Option<Seq<char>>,
    pub generated_mapping_name: Seq<char>,
    pub case_style: CaseStyle,
    pub backend_internal_type_name: Seq<char>,
}

/// The characters of a text that may be absent.
pub open spec fn text_of(text: Option<String>) -> Option<Seq<char>> {
    match text {
        Some(t) => Some(t@),
        None => None,
    }
}

impl View for TypeConfig {
    type V = TypeConfigView;

    open spec fn view(&self) -> TypeConfigView {
        TypeConfigView {
            existing_mapping_reference: text_of(self.existing_mapping_reference),
            generated_mapping_name: self.generated_mapping_name@,
            case_style: self.case_style,
            backend_internal_type_name: self.backend_internal_type_name@,
        }
    }
}

/// The name of the mapping type that is generated for the enumeration
/// `enum_name` when no name is given.
pub open spec fn default_mapping_name(enum_name: Seq<char>) -> Seq<char> {
    enum_name + "Mapping"@
}

/// The text that a search found, or `fallback` where the option is absent.
pub open spec fn found_or(found: Lookup, fallback: Seq<char>) -> Seq<char> {
    match found {
        Lookup::Found(text) => text,
        _ => fallback,
    }
}

/// The text that a search found, if it found one.
pub open spec fn found_text(found: Lookup) -> Option<Seq<char>> {
    match found {
        Lookup::Found(text) => Some(text),
        _ => None,
    }
}

/// The configuration that the options `attrs` on the enumeration `enum_name`
/// come to when bindings are generated for `backends`, or the first reason to
/// refuse them. `default_internal_type_name` is the name of the database type
/// where the options give none.
pub open spec fn resolved_config_with(
    enum_name: Seq<char>,
    attrs: Seq<Directive>,
    backends: BackendSet,
    default_internal_type_name: Seq<char>,
) -> Result<TypeConfigView, ConfigErrorView> {
    let existing = lookup(attrs, OptionKey::ExistingMappingReference);
    let internal = lookup(attrs, OptionKey::BackendInternalTypeName);
    let generated = lookup(attrs, OptionKey::GeneratedMappingName);
    let style = lookup(attrs, OptionKey::CaseStyleName);
    let token = found_or(style, "snake_case"@);
    if existing is Malformed {
        Err(ConfigErrorView::MalformedDirective { key: OptionKey::ExistingMappingReference })
    } else if existing is Found && !backends.postgres {
        Err(ConfigErrorView::ExistingMappingWithoutPostgres)
    } else if internal is Malformed {
        Err(ConfigErrorView::MalformedDirective { key: OptionKey::BackendInternalTypeName })
    } else if existing is Found && internal is Found {
        Err(ConfigErrorView::ExistingMappingWithInternalTypeName)
    } else if generated is Malformed {
        Err(ConfigErrorView::MalformedDirective { key: OptionKey::GeneratedMappingName })
    } else if existing is Found && generated is Found {
        Err(ConfigErrorView::ExistingMappingWithGeneratedName)
    } else if style is Malformed {
        Err(ConfigErrorView::MalformedDirective { key: OptionKey::CaseStyleName })
    } else {
        match CaseStyle::named(token) {
            None => Err(ConfigErrorView::UnsupportedCaseStyle { token }),
            Some(case_style) => Ok(
                TypeConfigView {
                    existing_mapping_reference: found_text(existing),
                    generated_mapping_name: found_or(generated, default_mapping_name(enum_name)),
                    case_style,
                    backend_internal_type_name: found_or(internal, default_internal_type_name),
                },
            ),
        }
    }
}

/// The configuration that the options `attrs` on the enumeration `enum_name`
/// come to. Where they name no database type, it is the enumeration's name in
/// snake case.
pub open spec fn resolved_config(
    enum_name: Seq<char>,
    attrs: Seq<Directive>,
    backends: BackendSet,
) -> Result<TypeConfigView, ConfigErrorView> {
    resolved_config_with(enum_name, attrs, backends, snake_case_of(enum_name))
}

/// A result of resolving, with its texts as sequences of characters.
pub open spec fn config_view(outcome: Result<TypeConfig, ConfigError>) -> Result<
    TypeConfigView,
    ConfigErrorView,
> {
    match outcome {
        Ok(config) => Ok(config@),
        Err(e) => Err(e@),
    }
}

impl TypeConfig {
    /// Checks the options written on an enumeration and fills in what they
    /// leave open, with `default_internal_type_name` as the database type
    /// where none is named.
    ///
    /// The checks are made in a fixed order and the first that fails gives
    /// the error: the form of each option as it is read, an existing mapping
    /// type without Postgres, an existing mapping type beside a database type
    /// name, an existing mapping type beside a name for a new one, and last
    /// the case style.
    pub fn resolve_with(
        enum_name: &str,
        attrs: &Vec<Directive>,
        backends: BackendSet,
        default_internal_type_name: String,
    ) -> (outcome: Result<TypeConfig, ConfigError>)
        ensures
            config_view(outcome) == resolved_config_with(
                enum_name@,
                attrs@,
                backends,
                default_internal_type_name@,
            ),
    {
        let existing = match val_from_attrs(attrs, OptionKey::ExistingMappingReference) {
            Ok(found) => found,
            Err(e) => { return Err(e); },
        };
        if existing.is_some() && !backends.postgres {
            return Err(ConfigError::ExistingMappingWithoutPostgres);
        }
        let internal = match val_from_attrs(attrs, OptionKey::BackendInternalTypeName) {
            Ok(found) => found,
            Err(e) => { return Err(e); },
        };
        if existing.is_some() && internal.is_some() {
            return Err(ConfigError::ExistingMappingWithInternalTypeName);
        }
        let generated = match val_from_attrs(attrs, OptionKey::GeneratedMappingName) {
            Ok(found) => found,
            Err(e) => { return Err(e); },
        };
        if existing.is_some() && generated.is_some() {
            return Err(ConfigError::ExistingMappingWithGeneratedName);
        }
        let style = match val_from_attrs(attrs, OptionKey::CaseStyleName) {
            Ok(found) => found,
            Err(e) => { return Err(e); },
        };
        let case_style = match style {
            Some(token) => CaseStyle::from_string(token.as_str()),
            None => CaseStyle::from_string("snake_case"),
        };
        let case_style = match case_style {
            Ok(known) => known,
            Err(e) => { return Err(e); },
        };
        let generated_mapping_name = match generated {
            Some(name) => name,
            None => String::from_str(enum_name).concat("Mapping"),
        };
        let backend_internal_type_name = match internal {
            Some(name) => name,
            None => default_internal_type_name,
        };
        Ok(
            TypeConfig {
                existing_mapping_reference: existing,
                generated_mapping_name,
                case_style,
                backend_internal_type_name,
            },
        )
    }

    /// Checks the options written on an enumeration and fills in what they
    /// leave open. Where they name no database type, it is the enumeration's
    /// name in snake case.
    pub fn resolve(enum_name: &str, attrs: &Vec<Directive>, backends: BackendSet) -> (outcome:
        Result<TypeConfig, ConfigError>)
        ensures
            config_view(outcome) == resolved_config(enum_name@, attrs@, backends),
    {
        TypeConfig::resolve_with(enum_name, attrs, backends, to_snake_case(enum_name))
    }
}

} // verus!
