//! The case styles from which the database value of a tag is derived.

use vstd::prelude::*;

use crate::error::ConfigError;
use crate::text::str_eq;

verus! {

/// How the identifier of a tag is recast to give its database value.
#[derive(Clone, Copy, Debug, PartialEq, Eq, Structural)]
pub enum CaseStyle {
    /// `fooBar`
    Camel,
    /// `foo-bar`
    Kebab,
    /// `FooBar`
    Pascal,
    /// `FOOBAR`
    Upper,
    /// `FOO_BAR`
    ScreamingSnake,
    /// `foo_bar`
    Snake,
    /// The identifier as it stands.
    Verbatim,
}

/// The text that `heck::ToLowerCamelCase::to_lower_camel_case` gives for `value`.
pub uninterp spec fn lower_camel_case_of(value: Seq<char>) -> Seq<char>;

/// The text that `heck::ToKebabCase::to_kebab_case` gives for `value`.
pub uninterp spec fn kebab_case_of(value: Seq<char>) -> Seq<char>;

/// The text that `heck::ToUpperCamelCase::to_upper_camel_case` gives for `value`.
pub uninterp spec fn upper_camel_case_of(value: Seq<char>) -> Seq<char>;

/// The text that `heck::ToShoutySnakeCase::to_shouty_snake_case` gives for `value`.
pub uninterp spec fn shouty_snake_case_of(value: Seq<char>) -> Seq<char>;

/// The text that `heck::ToSnakeCase::to_snake_case` gives for `value`.
pub uninterp spec fn snake_case_of(value: Seq<char>) -> Seq<char>;

/// The text that `str::to_uppercase` gives for `value`.
pub uninterp spec fn uppercase_of(value: Seq<char>) -> Seq<char>;

/// Calls `heck::ToLowerCamelCase::to_lower_camel_case` on `value`.
/// Trusted: the result depends on the characters of `value` alone.
#[verifier::external_body]
pub(crate) fn to_lower_camel_case(value: &str) -> (styled: String)
    ensures
        styled@ == lower_camel_case_of(value@),
{
    heck::ToLowerCamelCase::to_lower_camel_case(value)
}

/// Calls `heck::ToKebabCase::to_kebab_case` on `value`.
/// Trusted: the result depends on the characters of `value` alone.
#[verifier::external_body]
pub(crate) fn to_kebab_case(value: &str) -> (styled: String)
    ensures
        styled@ == kebab_case_of(value@),
{
    heck::ToKebabCase::to_kebab_case(value)
}

/// Calls `heck::ToUpperCamelCase::to_upper_camel_case` on `value`.
/// Trusted: the result depends on the characters of `value` alone.
#[verifier::external_body]
pub(crate) fn to_upper_camel_case(value: &str) -> (styled: String)
    ensures
        styled@ == upper_camel_case_of(value@),
{
    heck::ToUpperCamelCase::to_upper_camel_case(value)
}

/// Calls `heck::ToShoutySnakeCase::to_shouty_snake_case` on `value`.
/// Trusted: the result depends on the characters of `value` alone.
#[verifier::external_body]
pub(crate) fn to_shouty_snake_case(value: &str) -> (styled: String)
    ensures
        styled@ == shouty_snake_case_of(value@),
{
    heck::ToShoutySnakeCase::to_shouty_snake_case(value)
}

/// Calls `heck::ToSnakeCase::to_snake_case` on `value`.
/// Trusted: the result depends on the characters of `value` alone.
#[verifier::external_body]
pub(crate) fn to_snake_case(value: &str) -> (styled: String)
    ensures
        styled@ == snake_case_of(value@),
{
    heck::ToSnakeCase::to_snake_case(value)
}

/// Calls `str::to_uppercase` on `value`.
/// Trusted: the result depends on the characters of `value` alone.
#[verifier::external_body]
pub(crate) fn to_uppercase(value: &str) -> (styled: String)
    ensures
        styled@ == uppercase_of(value@),
{
    value.to_uppercase()
}

impl CaseStyle {
    /// The style that the token `name` stands for, if it stands for one.
    pub open spec fn named(name: Seq<char>) -> Option<CaseStyle> {
        if name == "camelCase"@ {
            Some(CaseStyle::Camel)
        } else if name == "kebab-case"@ {
            Some(CaseStyle::Kebab)
        } else if name == "PascalCase"@ {
            Some(CaseStyle::Pascal)
        } else if name == "SCREAMING_SNAKE_CASE"@ {
            Some(CaseStyle::ScreamingSnake)
        } else if name == "UPPERCASE"@ {
            Some(CaseStyle::Upper)
        } else if name == "snake_case"@ {
            Some(CaseStyle::Snake)
        } else if name == "verbatim"@ {
            Some(CaseStyle::Verbatim)
        } else {
            None
        }
    }

    /// Reads a case style from its token. Any text but the seven tokens is
    /// refused, and the error carries that text.
    pub fn from_string(name: &str) -> (style: Result<CaseStyle, ConfigError>)
        ensures
            match CaseStyle::named(name@) {
                Some(known) => style == Ok::<CaseStyle, ConfigError>(known),
                None => style matches Err(e) && e@ == (crate::error::ConfigErrorView::UnsupportedCaseStyle {
                    token: name@,
                }),
            },
    {
        if str_eq(name, "camelCase") {
            Ok(CaseStyle::Camel)
        } else if str_eq(name, "kebab-case") {
            Ok(CaseStyle::Kebab)
        } else if str_eq(name, "PascalCase") {
            Ok(CaseStyle::Pascal)
        } else if str_eq(name, "SCREAMING_SNAKE_CASE") {
            Ok(CaseStyle::ScreamingSnake)
        } else if str_eq(name, "UPPERCASE") {
            Ok(CaseStyle::Upper)
        } else if str_eq(name, "snake_case") {
            Ok(CaseStyle::Snake)
        } else if str_eq(name, "verbatim") {
            Ok(CaseStyle::Verbatim)
        } else {
            Err(ConfigError::UnsupportedCaseStyle { token: name.to_owned() })
        }
    }
}

/// The text that `value` becomes in `style`.
pub open spec fn stylized(value: Seq<char>, style: CaseStyle) -> Seq<char> {
    match style {
        CaseStyle::Camel => lower_camel_case_of(value),
        CaseStyle::Kebab => kebab_case_of(value),
        CaseStyle::Pascal => upper_camel_case_of(value),
        CaseStyle::Upper => uppercase_of(value),
        CaseStyle::ScreamingSnake => shouty_snake_case_of(value),
        CaseStyle::Snake => snake_case_of(value),
        CaseStyle::Verbatim => value,
    }
}

/// Recasts `value` in `style`. The result is a function of the two
/// arguments, the same on every call.
pub fn stylize_value(value: &str, style: CaseStyle) -> (styled: String)
    ensures
        styled@ == stylized(value@, style),
{
    match style {
        CaseStyle::Camel => to_lower_camel_case(value),
        CaseStyle::Kebab => to_kebab_case(value),
        CaseStyle::Pascal => to_upper_camel_case(value),
        CaseStyle::Upper => to_uppercase(value),
        CaseStyle::ScreamingSnake => to_shouty_snake_case(value),
        CaseStyle::Snake => to_snake_case(value),
        CaseStyle::Verbatim => value.to_owned(),
    }
}

} // verus!
