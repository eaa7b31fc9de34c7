//! The two kinds of failure: a configuration that is refused before anything
//! is generated, and a stored value that names no tag.

use vstd::prelude::*;
use vstd::string::*;

use crate::directive::OptionKey;

verus! {

/// Why a configuration is refused.
#[derive(Clone, Debug, PartialEq, Eq)]
pub enum ConfigError {
    /// An option is not written as a name with a text value.
    MalformedDirective { key: OptionKey },
    /// An existing mapping type was named, but Postgres is not among the
    /// enabled backends.
    ExistingMappingWithoutPostgres,
    /// Both an existing mapping type and a database type name were given.
    ExistingMappingWithInternalTypeName,
    /// Both an existing mapping type and a name for a new one were given.
    ExistingMappingWithGeneratedName,
    /// The case style is none of the recognised ones.
    UnsupportedCaseStyle { token: String },
    /// The item is not an enumeration.
    NotAnEnum,
    /// A tag carries data.
    TagHasPayload { tag: String },
}

/// A configuration error with its texts as sequences of characters.
pub enum ConfigErrorView {
    MalformedDirective { key: OptionKey },
    ExistingMappingWithoutPostgres,
    ExistingMappingWithInternalTypeName,
    ExistingMappingWithGeneratedName,
    UnsupportedCaseStyle { token: Seq<char> },
    NotAnEnum,
    TagHasPayload { tag: Seq<char> },
}

impl View for ConfigError {
    type V = ConfigErrorView;

    open spec fn view(&self) -> ConfigErrorView {
        match *self {
            ConfigError::MalformedDirective { key } => ConfigErrorView::MalformedDirective { key },
            ConfigError::ExistingMappingWithoutPostgres => ConfigErrorView::ExistingMappingWithoutPostgres,
            ConfigError::ExistingMappingWithInternalTypeName => ConfigErrorView::ExistingMappingWithInternalTypeName,
            ConfigError::ExistingMappingWithGeneratedName => ConfigErrorView::ExistingMappingWithGeneratedName,
            ConfigError::UnsupportedCaseStyle { token } => ConfigErrorView::UnsupportedCaseStyle {
                token: token@,
            },
            ConfigError::NotAnEnum => ConfigErrorView::NotAnEnum,
            ConfigError::TagHasPayload { tag } => ConfigErrorView::TagHasPayload { tag: tag@ },
        }
    }
}

impl ConfigErrorView {
    /// The error in words.
    pub open spec fn message(self) -> Seq<char> {
        match self {
            ConfigErrorView::MalformedDirective { key } => "Attribute '"@ + key.attribute_name_of()
                + "' must have form: "@ + key.attribute_name_of() + " = \"value\""@,
            ConfigErrorView::ExistingMappingWithoutPostgres =>
                "ExistingTypePath attribute only applies when the 'postgres' feature is enabled"@,
            ConfigErrorView::ExistingMappingWithInternalTypeName =>
                "Cannot specify both `ExistingTypePath` and `PgType` attributes"@,
            ConfigErrorView::ExistingMappingWithGeneratedName =>
                "Cannot specify both `ExistingTypePath` and `DieselType` attributes"@,
            ConfigErrorView::UnsupportedCaseStyle { token } => "unsupported casing: `"@ + token
                + "`"@,
            ConfigErrorView::NotAnEnum => "derive(DbEnum) can only be applied to enums"@,
            ConfigErrorView::TagHasPayload { tag } => "Variants must be fieldless: `"@ + tag
                + "`"@,
        }
    }
}

impl ConfigError {
    /// The error in words. It names the option, the token or the tag that
    /// the error is about.
    pub fn message(&self) -> (text: String)
        ensures
            text@ == self@.message(),
    {
        match self {
            ConfigError::MalformedDirective { key } => {
                let name = key.attribute_name();
                String::from_str("Attribute '").concat(name).concat("' must have form: ").concat(
                    name,
                ).concat(" = \"value\"")
            },
            ConfigError::ExistingMappingWithoutPostgres => String::from_str(
                "ExistingTypePath attribute only applies when the 'postgres' feature is enabled",
            ),
            ConfigError::ExistingMappingWithInternalTypeName => String::from_str(
                "Cannot specify both `ExistingTypePath` and `PgType` attributes",
            ),
            ConfigError::ExistingMappingWithGeneratedName => String::from_str(
                "Cannot specify both `ExistingTypePath` and `DieselType` attributes",
            ),
            ConfigError::UnsupportedCaseStyle { token } => String::from_str(
                "unsupported casing: `",
            ).concat(token.as_str()).concat("`"),
            ConfigError::NotAnEnum => String::from_str(
                "derive(DbEnum) can only be applied to enums",
            ),
            ConfigError::TagHasPayload { tag } => String::from_str(
                "Variants must be fieldless: `",
            ).concat(tag.as_str()).concat("`"),
        }
    }
}

/// A stored value that names no tag of the enumeration.
#[derive(Clone, Debug, PartialEq, Eq)]
pub struct DataError {
    /// The stored value as text, as far as it can be read as text.
    pub rendered: String,
    /// The name of the enumeration that the value was read for.
    pub enum_name: String,
}

/// A [`DataError`] with its texts as sequences of characters.
pub struct DataErrorView {
    pub rendered: Seq<char>,
    pub enum_name: Seq<char>,
}

impl View for DataError {
    type V = DataErrorView;

    open spec fn view(&self) -> DataErrorView {
        DataErrorView { rendered: self.rendered@, enum_name: self.enum_name@ }
    }
}

impl DataErrorView {
    /// The error in words.
    pub open spec fn message(self) -> Seq<char> {
        "Unrecognized enum variant: '"@ + self.rendered + "'"@
    }
}

impl DataError {
    /// The error in words, with the stored value between quotes.
    pub fn message(&self) -> (text: String)
        ensures
            text@ == self@.message(),
    {
        String::from_str("Unrecognized enum variant: '").concat(self.rendered.as_str()).concat("'")
    }
}

} // verus!
