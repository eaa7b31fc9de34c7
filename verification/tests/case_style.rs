use diesel_derive_enum::case_style::{stylize_value, CaseStyle};
use diesel_derive_enum::error::ConfigError;

#[test]
fn snake_case_splits_on_case_change() {
    assert_eq!(stylize_value("FooBar", CaseStyle::Snake), "foo_bar");
}

#[test]
fn kebab_case_joins_with_hyphens() {
    assert_eq!(stylize_value("FooBar", CaseStyle::Kebab), "foo-bar");
}

#[test]
fn camel_case_lowers_first_word() {
    assert_eq!(stylize_value("FooBar", CaseStyle::Camel), "fooBar");
}

#[test]
fn screaming_snake_case_shouts() {
    assert_eq!(stylize_value("FooBar", CaseStyle::ScreamingSnake), "FOO_BAR");
}

#[test]
fn verbatim_keeps_identifier() {
    assert_eq!(stylize_value("FooBar", CaseStyle::Verbatim), "FooBar");
    assert_eq!(stylize_value("foo_Bar-baz", CaseStyle::Verbatim), "foo_Bar-baz");
}

#[test]
fn pascal_case_capitalises_each_word() {
    assert_eq!(stylize_value("foo_bar", CaseStyle::Pascal), "FooBar");
    assert_eq!(stylize_value("FooBar", CaseStyle::Pascal), "FooBar");
}

#[test]
fn upper_case_keeps_word_boundaries_out() {
    assert_eq!(stylize_value("FooBar", CaseStyle::Upper), "FOOBAR");
    assert_eq!(stylize_value("foo_bar", CaseStyle::Upper), "FOO_BAR");
}

#[test]
fn acronyms_stay_one_word() {
    assert_eq!(stylize_value("XMLHttpRequest", CaseStyle::Snake), "xml_http_request");
    assert_eq!(stylize_value("XMLHttpRequest", CaseStyle::Kebab), "xml-http-request");
    assert_eq!(stylize_value("XMLHttpRequest", CaseStyle::Camel), "xmlHttpRequest");
    assert_eq!(stylize_value("XMLHttpRequest", CaseStyle::ScreamingSnake), "XML_HTTP_REQUEST");
    assert_eq!(stylize_value("XMLHttpRequest", CaseStyle::Pascal), "XmlHttpRequest");
}

#[test]
fn repeated_separators_fold_into_one() {
    assert_eq!(stylize_value("hello__world", CaseStyle::Snake), "hello_world");
    assert_eq!(stylize_value("_leading", CaseStyle::Snake), "leading");
}

#[test]
fn empty_identifier_stays_empty() {
    for style in all_styles() {
        assert_eq!(stylize_value("", style), "");
    }
}

#[test]
fn styling_is_deterministic() {
    for style in all_styles() {
        for word in ["FooBar", "bazQux", "A", "snake_case_word", "XMLHttp"] {
            assert_eq!(stylize_value(word, style), stylize_value(word, style));
        }
    }
}

#[test]
fn every_token_names_its_style() {
    assert_eq!(CaseStyle::from_string("camelCase"), Ok(CaseStyle::Camel));
    assert_eq!(CaseStyle::from_string("kebab-case"), Ok(CaseStyle::Kebab));
    assert_eq!(CaseStyle::from_string("PascalCase"), Ok(CaseStyle::Pascal));
    assert_eq!(CaseStyle::from_string("SCREAMING_SNAKE_CASE"), Ok(CaseStyle::ScreamingSnake));
    assert_eq!(CaseStyle::from_string("UPPERCASE"), Ok(CaseStyle::Upper));
    assert_eq!(CaseStyle::from_string("snake_case"), Ok(CaseStyle::Snake));
    assert_eq!(CaseStyle::from_string("verbatim"), Ok(CaseStyle::Verbatim));
}

#[test]
fn unknown_token_is_refused_by_name() {
    assert_eq!(
        CaseStyle::from_string("Title Case"),
        Err(ConfigError::UnsupportedCaseStyle { token: "Title Case".to_string() })
    );
    assert_eq!(
        CaseStyle::from_string(""),
        Err(ConfigError::UnsupportedCaseStyle { token: String::new() })
    );
}

#[test]
fn tokens_are_matched_exactly() {
    for token in ["snake_Case", "Snake_case", " snake_case", "snake_case ", "camelcase", "verbatimcase"] {
        assert_eq!(
            CaseStyle::from_string(token),
            Err(ConfigError::UnsupportedCaseStyle { token: token.to_string() })
        );
    }
}

fn all_styles() -> [CaseStyle; 7] {
    [
        CaseStyle::Camel,
        CaseStyle::Kebab,
        CaseStyle::Pascal,
        CaseStyle::Upper,
        CaseStyle::ScreamingSnake,
        CaseStyle::Snake,
        CaseStyle::Verbatim,
    ]
}
