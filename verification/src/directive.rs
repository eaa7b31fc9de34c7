//! The options that may be attached to an enumeration or to one of its tags,
//! and how the value of an option is found among those that were given.

use vstd::prelude::*;

use crate::error::ConfigError;
use crate::text::str_eq;

verus! {

/// The options this crate recognises.
#[derive(Clone, Copy, Debug, PartialEq, Eq, Structural)]
pub enum OptionKey {
    /// On the type: the path of a mapping type that already exists.
    ExistingMappingReference,
    /// On the type: the name of the mapping type to generate.
    GeneratedMappingName,
    /// On the type: the name of the type inside the Postgres database.
    BackendInternalTypeName,
    /// On the type: the case style from which database values are derived.
    CaseStyleName,
    /// On a tag: the database value of that tag.
    RenameOverride,
}

impl OptionKey {
    /// The attribute under which the option is written in source text.
    pub open spec fn attribute_name_of(self) -> Seq<char> {
        match self {
            OptionKey::ExistingMappingReference => "ExistingTypePath"@,
            OptionKey::GeneratedMappingName => "DieselType"@,
            OptionKey::BackendInternalTypeName => "PgType"@,
            OptionKey::CaseStyleName => "DbValueStyle"@,
            OptionKey::RenameOverride => "db_rename"@,
        }
    }

    /// The option that is written under the attribute `name`, if there is one.
    pub open spec fn of_attribute_name(name: Seq<char>) -> Option<OptionKey> {
        if name == "ExistingTypePath"@ {
            Some(OptionKey::ExistingMappingReference)
        } else if name == "DieselType"@ {
            Some(OptionKey::GeneratedMappingName)
        } else if name == "PgType"@ {
            Some(OptionKey::BackendInternalTypeName)
        } else if name == "DbValueStyle"@ {
            Some(OptionKey::CaseStyleName)
        } else if name == "db_rename"@ {
            Some(OptionKey::RenameOverride)
        } else {
            None
        }
    }

    /// The attribute under which the option is written in source text.
    pub fn attribute_name(self) -> (name: &'static str)
        ensures
            name@ == self.attribute_name_of(),
    {
        match self {
            OptionKey::ExistingMappingReference => "ExistingTypePath",
            OptionKey::GeneratedMappingName => "DieselType",
            OptionKey::BackendInternalTypeName => "PgType",
            OptionKey::CaseStyleName => "DbValueStyle",
            OptionKey::RenameOverride => "db_rename",
        }
    }

    /// Recognises an attribute by its name. Names are compared exactly.
    pub fn from_attribute_name(name: &str) -> (key: Option<OptionKey>)
        ensures
            key == OptionKey::of_attribute_name(name@),
    {
        if str_eq(name, "ExistingTypePath") {
            Some(OptionKey::ExistingMappingReference)
        } else if str_eq(name, "DieselType") {
            Some(OptionKey::GeneratedMappingName)
        } else if str_eq(name, "PgType") {
            Some(OptionKey::BackendInternalTypeName)
        } else if str_eq(name, "DbValueStyle") {
            Some(OptionKey::CaseStyleName)
        } else if str_eq(name, "db_rename") {
            Some(OptionKey::RenameOverride)
        } else {
            None
        }
    }
}

/// What stands behind the name of an option.
#[derive(Clone, Debug, PartialEq, Eq)]
pub enum DirectiveValue {
    /// The one accepted form: the option is given a text.
    Text(String),
    /// A well-formed attribute of another form: a bare name, a list, or a
    /// value that is not a text.
    Other,
    /// An attribute that cannot be read as a name with a value at all.
    Unparsable,
}

/// One option as it was written on the type or on a tag.
#[derive(Clone, Debug, PartialEq, Eq)]
pub struct Directive {
    pub key: OptionKey,
    pub value: DirectiveValue,
}

/// What a search for an option comes to.
pub enum Lookup {
    /// The option was not given, or its first occurrence cannot be read.
    Absent,
    /// The option was given this text.
    Found(Seq<char>),
    /// The first occurrence of the option does not give it a text.
    Malformed,
}

/// The outcome of searching `attrs` for `key`: the first directive with that
/// key decides, and later ones are not looked at.
pub open spec fn lookup(attrs: Seq<Directive>, key: OptionKey) -> Lookup
    decreases attrs.len(),
{
    if attrs.len() == 0 {
        Lookup::Absent
    } else if attrs[0].key == key {
        match attrs[0].value {
            DirectiveValue::Text(text) => Lookup::Found(text@),
            DirectiveValue::Other => Lookup::Malformed,
            DirectiveValue::Unparsable => Lookup::Absent,
        }
    } else {
        lookup(attrs.drop_first(), key)
    }
}

/// The value of the option `key` among `attrs`.
///
/// The first directive with that key decides. A text is returned as it
/// stands; a directive that cannot be read counts as absent; any other form
/// is refused.
pub fn val_from_attrs(attrs: &Vec<Directive>, key: OptionKey) -> (found: Result<
    Option<String>,
    ConfigError,
>)
    ensures
        match lookup(attrs@, key) {
            Lookup::Absent => found == Ok::<Option<String>, ConfigError>(None),
            Lookup::Found(text) => found matches Ok(Some(value)) && value@ == text,
            Lookup::Malformed => found == Err::<Option<String>, ConfigError>(
                ConfigError::MalformedDirective { key },
            ),
        },
{
    let mut i: usize = 0;
    proof {
        assert(attrs@.subrange(0, attrs@.len() as int) =~= attrs@);
    }
    while i < attrs.len()
        invariant
            i <= attrs@.len(),
            lookup(attrs@, key) == lookup(attrs@.subrange(i as int, attrs@.len() as int), key),
        decreases attrs@.len() - i,
    {
        let ghost rest = attrs@.subrange(i as int, attrs@.len() as int);
        proof {
            assert(rest[0] == attrs@[i as int]);
            assert(rest.drop_first() =~= attrs@.subrange(i + 1, attrs@.len() as int));
        }
        let attr = &attrs[i];
        if attr.key == key {
            return match &attr.value {
                DirectiveValue::Text(text) => Ok(Some(text.clone())),
                DirectiveValue::Other => Err(ConfigError::MalformedDirective { key }),
                DirectiveValue::Unparsable => Ok(None),
            };
        }
        i += 1;
    }
    Ok(None)
}

} // verus!
