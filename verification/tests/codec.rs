use diesel_derive_enum::backend::{
    generate_mysql_impl, generate_new_diesel_mapping, generate_postgres_impl,
    generate_sqlite_impl, BackendArtifact, MarkerType, RawValue, StoredType, WireKind,
};
use diesel_derive_enum::bundle::{generate_derive_enum_impls, MappingRef};
use diesel_derive_enum::case_style::CaseStyle;
use diesel_derive_enum::config::{Backend, BackendSet, TypeConfig};
use diesel_derive_enum::directive::{Directive, DirectiveValue, OptionKey};
use diesel_derive_enum::enum_spec::{EnumInput, EnumSpec, TagInput, TagSpec};
use diesel_derive_enum::error::DataError;
use diesel_derive_enum::mapping::{generate_common, CanonicalMapping, TagEntry};

const ALL: BackendSet = BackendSet { postgres: true, mysql: true, sqlite: true };

fn tag(identifier: &str) -> TagSpec {
    TagSpec { identifier: identifier.to_string(), rename_override: None }
}

fn renamed(identifier: &str, value: &str) -> TagSpec {
    TagSpec { identifier: identifier.to_string(), rename_override: Some(value.to_string()) }
}

fn config(style: CaseStyle, existing: Option<&str>) -> TypeConfig {
    TypeConfig {
        existing_mapping_reference: existing.map(|path| path.to_string()),
        generated_mapping_name: "FooMapping".to_string(),
        case_style: style,
        backend_internal_type_name: "foo".to_string(),
    }
}

fn spec(style: CaseStyle, tags: Vec<TagSpec>) -> EnumSpec {
    EnumSpec { name: "Foo".to_string(), tags, config: config(style, None) }
}

fn mapping_of(pairs: &[(&str, &str)]) -> CanonicalMapping {
    CanonicalMapping {
        enum_name: "Foo".to_string(),
        entries: pairs
            .iter()
            .map(|(identifier, canonical)| TagEntry {
                identifier: identifier.to_string(),
                canonical: canonical.to_string(),
            })
            .collect(),
    }
}

fn artifacts(config: &TypeConfig, mapping: &CanonicalMapping) -> Vec<BackendArtifact> {
    vec![
        generate_postgres_impl(config, mapping),
        generate_mysql_impl(config, mapping),
        generate_sqlite_impl(config, mapping),
    ]
}

const STYLES: [CaseStyle; 7] = [
    CaseStyle::Camel,
    CaseStyle::Kebab,
    CaseStyle::Pascal,
    CaseStyle::Upper,
    CaseStyle::ScreamingSnake,
    CaseStyle::Snake,
    CaseStyle::Verbatim,
];

#[test]
fn end_to_end_with_defaults() {
    let input = EnumInput {
        name: "Kind".to_string(),
        directives: Vec::new(),
        tags: Some(vec![
            TagInput { identifier: "FooBar".to_string(), directives: Vec::new(), has_payload: false },
            TagInput { identifier: "BazQux".to_string(), directives: Vec::new(), has_payload: false },
        ]),
    };
    let bundle = diesel_derive_enum::derive(&input, ALL).unwrap();
    let mut expected = mapping_of(&[("FooBar", "foo_bar"), ("BazQux", "baz_qux")]);
    expected.enum_name = "Kind".to_string();
    assert_eq!(bundle.mapping, expected);
    assert_eq!(bundle.mapping.from_db_binary_representation(b"foo_bar"), Ok(0));
    assert_eq!(bundle.mapping.from_db_binary_representation(b"baz_qux"), Ok(1));
    assert_eq!(
        bundle.mapping.from_db_binary_representation(b"unknown"),
        Err(DataError { rendered: "unknown".to_string(), enum_name: "Kind".to_string() })
    );
    assert_eq!(bundle.mapping.entries[0].identifier, "FooBar");
    assert_eq!(bundle.mapping.entries[1].identifier, "BazQux");
    for artifact in [bundle.postgres.unwrap(), bundle.mysql.unwrap(), bundle.sqlite.unwrap()] {
        assert_eq!(artifact.from_sql(&RawValue::Bytes(b"foo_bar".to_vec())), Ok(0));
        assert_eq!(artifact.from_sql(&RawValue::Text("baz_qux".to_string())), Ok(1));
        let missing = artifact.from_sql(&RawValue::Bytes(b"unknown".to_vec())).unwrap_err();
        assert!(missing.message().contains("unknown"));
    }
}

#[test]
fn unknown_bytes_are_rendered_in_the_error() {
    let mapping = mapping_of(&[("A", "a")]);
    let error = mapping.from_db_binary_representation(b"not_a_tag").unwrap_err();
    assert_eq!(error.rendered, "not_a_tag");
    assert_eq!(error.enum_name, "Foo");
    assert_eq!(error.message(), "Unrecognized enum variant: 'not_a_tag'");
}

#[test]
fn bytes_that_are_no_text_are_rendered_as_far_as_possible() {
    let mapping = mapping_of(&[("A", "a")]);
    let error = mapping.from_db_binary_representation(&[b'a', 0xff, b'b']).unwrap_err();
    assert_eq!(error.rendered, "a\u{fffd}b");
    let error = mapping.from_db_binary_representation(&[]).unwrap_err();
    assert_eq!(error.rendered, "");
}

#[test]
fn empty_mapping_names_no_tag() {
    let mapping = mapping_of(&[]);
    assert_eq!(mapping.len(), 0);
    assert!(mapping.from_db_binary_representation(b"").is_err());
    assert!(mapping.from_db_binary_representation(b"a").is_err());
}

#[test]
fn lookup_is_exact() {
    let mapping = mapping_of(&[("FooBar", "foo_bar"), ("Empty", "")]);
    assert_eq!(mapping.from_db_binary_representation(b"foo_bar"), Ok(0));
    assert_eq!(mapping.from_db_binary_representation(b""), Ok(1));
    for near in [&b"Foo_bar"[..], b"foo_bar ", b" foo_bar", b"foo_ba", b"foo_bar\n", b"FOO_BAR", b"FooBar"] {
        assert!(mapping.from_db_binary_representation(near).is_err());
    }
}

#[test]
fn later_tag_wins_a_shared_text() {
    let mapping = mapping_of(&[("A", "same"), ("B", "other"), ("C", "same")]);
    assert_eq!(mapping.encode(0), b"same".to_vec());
    assert_eq!(mapping.encode(2), b"same".to_vec());
    assert_eq!(mapping.from_db_binary_representation(b"same"), Ok(2));
    assert_eq!(mapping.from_db_binary_representation(b"other"), Ok(1));
}

#[test]
fn written_text_is_the_canonical_text() {
    let mapping = mapping_of(&[("A", "alpha"), ("B", "b\u{e9}ta")]);
    assert_eq!(mapping.len(), 2);
    assert_eq!(mapping.db_str_representation(0), "alpha");
    assert_eq!(mapping.db_str_representation(1), "b\u{e9}ta");
    assert_eq!(mapping.encode(0), b"alpha".to_vec());
    assert_eq!(mapping.encode(1), "b\u{e9}ta".as_bytes().to_vec());
    assert_eq!(mapping.duplicate(), mapping);
}

#[test]
fn round_trip_in_every_style_and_backend() {
    let tags = vec![tag("FooBar"), tag("BazQux"), renamed("Third", "3rd"), tag("XMLHttp")];
    for style in STYLES {
        let spec = spec(style, tags.clone());
        let mapping = generate_common(&spec);
        for index in 0..tags.len() {
            let bytes = mapping.encode(index);
            assert_eq!(mapping.from_db_binary_representation(&bytes), Ok(index));
        }
        for artifact in artifacts(&spec.config, &mapping) {
            for index in 0..tags.len() {
                let raw = artifact.to_sql(index);
                assert_eq!(artifact.from_sql(&raw), Ok(index));
                assert_eq!(artifact.build(index), Ok(index));
            }
        }
    }
}

#[test]
fn override_wins_over_every_style() {
    for style in STYLES {
        let spec = spec(style, vec![renamed("FooBar", "custom"), tag("FooBar")]);
        assert_eq!(spec.tags[0].canonical(style), "custom");
        let mapping = generate_common(&spec);
        assert_eq!(mapping.db_str_representation(0), "custom");
        assert_eq!(mapping.from_db_binary_representation(b"custom"), Ok(0));
    }
    assert_eq!(tag("FooBar").canonical(CaseStyle::Kebab), "foo-bar");
    assert_eq!(renamed("FooBar", "").canonical(CaseStyle::Kebab), "");
}

#[test]
fn mapping_follows_the_style() {
    let spec = spec(CaseStyle::ScreamingSnake, vec![tag("FooBar"), renamed("BazQux", "q")]);
    assert_eq!(generate_common(&spec), mapping_of(&[("FooBar", "FOO_BAR"), ("BazQux", "q")]));
}

#[test]
fn sqlite_writes_text_and_others_write_bytes() {
    let mapping = mapping_of(&[("FooBar", "foo_bar")]);
    let config = config(CaseStyle::Snake, None);
    assert_eq!(
        generate_postgres_impl(&config, &mapping).to_sql(0),
        RawValue::Bytes(b"foo_bar".to_vec())
    );
    assert_eq!(
        generate_mysql_impl(&config, &mapping).to_sql(0),
        RawValue::Bytes(b"foo_bar".to_vec())
    );
    assert_eq!(
        generate_sqlite_impl(&config, &mapping).to_sql(0),
        RawValue::Text("foo_bar".to_string())
    );
}

#[test]
fn generated_marker_is_declared_per_backend() {
    let mapping = mapping_of(&[("A", "a")]);
    let config = config(CaseStyle::Snake, None);
    let postgres = generate_postgres_impl(&config, &mapping);
    assert_eq!(postgres.backend, Backend::Postgres);
    assert_eq!(
        postgres.stored_type,
        StoredType::Marker {
            name: "FooMapping".to_string(),
            wire_kind: WireKind::Named("foo".to_string()),
        }
    );
    let mysql = generate_mysql_impl(&config, &mapping);
    assert_eq!(mysql.backend, Backend::Mysql);
    assert_eq!(
        mysql.stored_type,
        StoredType::Marker { name: "FooMapping".to_string(), wire_kind: WireKind::Enum }
    );
    let sqlite = generate_sqlite_impl(&config, &mapping);
    assert_eq!(sqlite.backend, Backend::Sqlite);
    assert_eq!(
        sqlite.stored_type,
        StoredType::Marker { name: "FooMapping".to_string(), wire_kind: WireKind::Text }
    );
    for artifact in [postgres, mysql, sqlite] {
        assert!(artifact.stored_type.attaches_copy());
        assert_eq!(artifact.mapping, mapping);
    }
}

#[test]
fn existing_mapping_is_used_for_postgres_only() {
    let mapping = mapping_of(&[("A", "a")]);
    let config = config(CaseStyle::Snake, Some("crate::schema::Foo"));
    let postgres = generate_postgres_impl(&config, &mapping);
    assert_eq!(
        postgres.stored_type,
        StoredType::External { path: "crate::schema::Foo".to_string() }
    );
    assert!(!postgres.stored_type.attaches_copy());
    assert_eq!(
        generate_mysql_impl(&config, &mapping).stored_type,
        StoredType::Marker { name: "FooMapping".to_string(), wire_kind: WireKind::Enum }
    );
    assert_eq!(
        generate_sqlite_impl(&config, &mapping).stored_type,
        StoredType::Marker { name: "FooMapping".to_string(), wire_kind: WireKind::Text }
    );
}

#[test]
fn marker_has_a_wire_kind_for_each_backend() {
    let marker = generate_new_diesel_mapping("FooMapping", "foo");
    assert_eq!(
        marker,
        MarkerType { name: "FooMapping".to_string(), postgres_type_name: "foo".to_string() }
    );
    assert_eq!(marker.wire_kind(Backend::Postgres), WireKind::Named("foo".to_string()));
    assert_eq!(marker.wire_kind(Backend::Mysql), WireKind::Enum);
    assert_eq!(marker.wire_kind(Backend::Sqlite), WireKind::Text);
}

#[test]
fn bundle_holds_enabled_backends_only() {
    let spec = spec(CaseStyle::Snake, vec![tag("FooBar")]);
    for postgres in [false, true] {
        for mysql in [false, true] {
            for sqlite in [false, true] {
                let backends = BackendSet { postgres, mysql, sqlite };
                assert_eq!(backends.contains(Backend::Postgres), postgres);
                assert_eq!(backends.contains(Backend::Mysql), mysql);
                assert_eq!(backends.contains(Backend::Sqlite), sqlite);
                let bundle = generate_derive_enum_impls(&spec, backends);
                assert_eq!(bundle.postgres.is_some(), postgres);
                assert_eq!(bundle.mysql.is_some(), mysql);
                assert_eq!(bundle.sqlite.is_some(), sqlite);
                assert_eq!(bundle.module_name, "db_enum_impl_Foo");
                assert_eq!(bundle.mapping, generate_common(&spec));
            }
        }
    }
}

#[test]
fn bundle_defines_the_marker_unless_one_exists() {
    let spec = spec(CaseStyle::Snake, vec![tag("FooBar")]);
    let bundle = generate_derive_enum_impls(&spec, ALL);
    assert_eq!(
        bundle.marker,
        Some(MarkerType { name: "FooMapping".to_string(), postgres_type_name: "foo".to_string() })
    );
    assert_eq!(bundle.common_impls_on, MappingRef::Generated { name: "FooMapping".to_string() });
    assert_eq!(bundle.postgres, Some(generate_postgres_impl(&spec.config, &bundle.mapping)));
    assert_eq!(bundle.mysql, Some(generate_mysql_impl(&spec.config, &bundle.mapping)));
    assert_eq!(bundle.sqlite, Some(generate_sqlite_impl(&spec.config, &bundle.mapping)));

    let reusing = EnumSpec {
        name: "Foo".to_string(),
        tags: vec![tag("FooBar")],
        config: config(CaseStyle::Snake, Some("crate::schema::Foo")),
    };
    let bundle = generate_derive_enum_impls(&reusing, ALL);
    assert_eq!(bundle.marker, None);
    assert_eq!(
        bundle.common_impls_on,
        MappingRef::Existing { path: "crate::schema::Foo".to_string() }
    );
    assert_eq!(
        bundle.postgres.unwrap().stored_type,
        StoredType::External { path: "crate::schema::Foo".to_string() }
    );
}

#[test]
fn derive_reads_options_from_type_and_tags() {
    let input = EnumInput {
        name: "Colour".to_string(),
        directives: vec![
            Directive {
                key: OptionKey::CaseStyleName,
                value: DirectiveValue::Text("kebab-case".to_string()),
            },
            Directive {
                key: OptionKey::GeneratedMappingName,
                value: DirectiveValue::Text("ColourType".to_string()),
            },
        ],
        tags: Some(vec![
            TagInput { identifier: "DarkRed".to_string(), directives: Vec::new(), has_payload: false },
            TagInput {
                identifier: "LightBlue".to_string(),
                directives: vec![Directive {
                    key: OptionKey::RenameOverride,
                    value: DirectiveValue::Text("sky".to_string()),
                }],
                has_payload: false,
            },
        ]),
    };
    let only_mysql = BackendSet { postgres: false, mysql: true, sqlite: false };
    let bundle = diesel_derive_enum::derive(&input, only_mysql).unwrap();
    assert_eq!(bundle.module_name, "db_enum_impl_Colour");
    assert_eq!(bundle.mapping.enum_name, "Colour");
    assert_eq!(bundle.mapping.db_str_representation(0), "dark-red");
    assert_eq!(bundle.mapping.db_str_representation(1), "sky");
    assert_eq!(
        bundle.marker,
        Some(MarkerType { name: "ColourType".to_string(), postgres_type_name: "colour".to_string() })
    );
    assert!(bundle.postgres.is_none() && bundle.sqlite.is_none());
    let mysql = bundle.mysql.unwrap();
    assert_eq!(mysql.to_sql(1), RawValue::Bytes(b"sky".to_vec()));
    assert_eq!(mysql.from_sql(&RawValue::Bytes(b"dark-red".to_vec())), Ok(0));
}

#[test]
fn lookup_order_starts_with_the_last_tag() {
    assert_eq!(mapping_of(&[]).lookup_order(), Vec::<usize>::new());
    assert_eq!(mapping_of(&[("A", "a")]).lookup_order(), vec![0]);
    let mapping = mapping_of(&[("A", "same"), ("B", "other"), ("C", "same")]);
    assert_eq!(mapping.lookup_order(), vec![2, 1, 0]);
    let first_hit = mapping
        .lookup_order()
        .into_iter()
        .find(|&tag| mapping.encode(tag) == b"same".to_vec());
    assert_eq!(first_hit, mapping.from_db_binary_representation(b"same").ok());
}
