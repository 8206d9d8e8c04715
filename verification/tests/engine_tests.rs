use schema_bridge::Bridged;
use schema_bridge::NamingRule;
use schema_bridge::Schema;
use schema_bridge::TypeShape;
use schema_bridge::convert::name_table;
use schema_bridge::convert::parse_variant;
use schema_bridge::convert::table_is_injective;
use schema_bridge::dispatch::bridge_composite;
use schema_bridge::generate_ts_file;
use schema_bridge::naming::apply_rename_rule;

#[test]
fn naming_rule_table() {
    assert_eq!(
        apply_rename_rule("LowPriority", NamingRule::SnakeCase),
        "low_priority"
    );
    assert_eq!(
        apply_rename_rule("LowPriority", NamingRule::ScreamingSnakeCase),
        "LOW_PRIORITY"
    );
    assert_eq!(
        apply_rename_rule("is_active", NamingRule::CamelCase),
        "isActive"
    );
    assert_eq!(apply_rename_rule("Active", NamingRule::PascalCase), "Active");
    assert_eq!(
        apply_rename_rule("max_retries", NamingRule::KebabCase),
        "max-retries"
    );
}

#[test]
fn naming_rule_more_rules() {
    assert_eq!(apply_rename_rule("MixedCase", NamingRule::Lowercase), "mixedcase");
    assert_eq!(apply_rename_rule("MixedCase", NamingRule::Uppercase), "MIXEDCASE");
    assert_eq!(apply_rename_rule("any_name", NamingRule::Identity), "any_name");
    assert_eq!(apply_rename_rule("snake_name", NamingRule::PascalCase), "SnakeName");
    assert_eq!(apply_rename_rule("Boundary", NamingRule::CamelCase), "boundary");
    assert_eq!(apply_rename_rule("already_snake", NamingRule::SnakeCase), "already_snake");
    assert_eq!(apply_rename_rule("shouty_name", NamingRule::ScreamingSnakeCase), "SHOUTY_NAME");
    assert_eq!(apply_rename_rule("KebabName", NamingRule::KebabCase), "kebab-name");
    assert_eq!(apply_rename_rule("", NamingRule::PascalCase), "");
    assert_eq!(apply_rename_rule("", NamingRule::SnakeCase), "");
}

#[test]
fn enum_rendering() {
    let shape = TypeShape::UnitVariants(vec![
        "Normal".to_string(),
        "Concise".to_string(),
        "Creative".to_string(),
        "Academic".to_string(),
    ]);
    let ts = bridge_composite(shape, NamingRule::SnakeCase).unwrap().ts;
    assert_eq!(ts, "'normal' | 'concise' | 'creative' | 'academic'");
    assert!(!ts.contains("Normal"));
    assert!(!ts.contains("Concise"));
    assert!(!ts.contains("Creative"));
    assert!(!ts.contains("Academic"));
}

#[test]
fn enum_schema_holds_renamed_variants() {
    let shape = TypeShape::UnitVariants(vec!["Normal".to_string(), "Concise".to_string()]);
    let schema = bridge_composite(shape, NamingRule::SnakeCase).unwrap().schema;
    assert_eq!(
        schema,
        Schema::Enum(vec!["normal".to_string(), "concise".to_string()])
    );
}

#[test]
fn record_rendering_with_rule() {
    let shape = TypeShape::NamedFields(vec![
        ("user_name".to_string(), Bridged { ts: "string".to_string(), schema: Schema::String }),
        ("max_retries".to_string(), Bridged { ts: "number".to_string(), schema: Schema::Number }),
        ("is_active".to_string(), Bridged { ts: "boolean".to_string(), schema: Schema::Boolean }),
    ]);
    let out = bridge_composite(shape, NamingRule::CamelCase).unwrap();
    assert_eq!(
        out.ts,
        "{ userName: string; maxRetries: number; isActive: boolean; }"
    );
    assert!(!out.ts.contains("user_name"));
    assert!(!out.ts.contains("max_retries"));
    assert!(!out.ts.contains("is_active"));
    assert_eq!(
        out.schema,
        Schema::Object(vec![
            ("userName".to_string(), Schema::String),
            ("maxRetries".to_string(), Schema::Number),
            ("isActive".to_string(), Schema::Boolean),
        ])
    );
}

#[test]
fn record_without_fields_renders_braces() {
    let out = bridge_composite(TypeShape::NamedFields(vec![]), NamingRule::Identity).unwrap();
    assert_eq!(out.ts, "{  }");
    assert_eq!(out.schema, Schema::Object(vec![]));
}

#[test]
fn unit_shape_renders_null() {
    let out = bridge_composite(TypeShape::Unit, NamingRule::Identity).unwrap();
    assert_eq!(out.ts, "null");
    assert_eq!(out.schema, Schema::Null);
}

#[test]
fn tuple_arity_boundary() {
    for arity in 1..=6usize {
        let elems: Vec<Bridged> = (0..arity)
            .map(|_| Bridged { ts: "number".to_string(), schema: Schema::Number })
            .collect();
        let out = bridge_composite(TypeShape::MultiUnnamed(elems), NamingRule::Identity);
        assert!(out.is_some(), "arity {} should be supported", arity);
    }
    let none = bridge_composite(TypeShape::MultiUnnamed(vec![]), NamingRule::Identity);
    assert!(none.is_none(), "arity 0 should be rejected");
    let seven: Vec<Bridged> = (0..7usize)
        .map(|_| Bridged { ts: "number".to_string(), schema: Schema::Number })
        .collect();
    let none = bridge_composite(TypeShape::MultiUnnamed(seven), NamingRule::Identity);
    assert!(none.is_none(), "arity 7 should be rejected");
}

#[test]
fn positional_rendering_exact() {
    let out = bridge_composite(
        TypeShape::MultiUnnamed(vec![
            Bridged { ts: "string".to_string(), schema: Schema::String },
            Bridged { ts: "number".to_string(), schema: Schema::Number },
        ]),
        NamingRule::Identity,
    )
    .unwrap();
    assert_eq!(out.ts, "[string, number]");
    assert_eq!(out.schema, Schema::Tuple(vec![Schema::String, Schema::Number]));
}

#[test]
fn emission_idempotence() {
    let make = || {
        vec![
            ("User", "{ name: string; }".to_string()),
            ("Id", "number".to_string()),
        ]
    };
    let first = generate_ts_file(make());
    let second = generate_ts_file(make());
    assert_eq!(first, second);
    assert_eq!(
        first,
        "// This file is auto-generated by schema-bridge\n\n\
         export type User = { name: string; };\n\n\
         export type Id = number;\n\n"
    );
}

#[test]
fn emission_of_empty_list_is_header_only() {
    let out = generate_ts_file(vec![]);
    assert_eq!(out, "// This file is auto-generated by schema-bridge\n\n");
}

#[test]
fn name_table_injectivity() {
    let good = name_table(
        &vec!["HighPriority".to_string(), "LowPriority".to_string()],
        NamingRule::CamelCase,
    );
    assert!(table_is_injective(&good));

    // "FooBar" and "foo_bar" both display as "fooBar" under camelCase.
    let colliding = name_table(
        &vec!["FooBar".to_string(), "foo_bar".to_string()],
        NamingRule::CamelCase,
    );
    assert_eq!(colliding[0].1, "fooBar");
    assert_eq!(colliding[1].1, "fooBar");
    assert!(!table_is_injective(&colliding));
}

#[test]
fn parse_on_empty_table_fails() {
    let table = name_table(&vec![], NamingRule::Identity);
    let result = parse_variant("Nothing", &table, "__not_a_variant__");
    assert_eq!(result.unwrap_err(), "Unknown Nothing: __not_a_variant__");
}

#[test]
fn parse_unknown_names_type_and_input() {
    let table = name_table(
        &vec!["Normal".to_string(), "Concise".to_string()],
        NamingRule::SnakeCase,
    );
    let result = parse_variant("ConversationMode", &table, "__not_a_variant__");
    assert!(result.is_err());
    assert_eq!(
        result.unwrap_err(),
        "Unknown ConversationMode: __not_a_variant__"
    );
}

#[test]
fn round_trip_every_variant() {
    let variants = vec![
        "Brainstorm".to_string(),
        "Casual".to_string(),
        "DecisionMaking".to_string(),
    ];
    let table = name_table(&variants, NamingRule::SnakeCase);
    assert!(table_is_injective(&table));
    for i in 0..table.len() {
        let display = table[i].1.clone();
        assert_eq!(parse_variant("TalkStyle", &table, &display).unwrap(), i);
    }
}

#[test]
fn newtype_delegation_around_primitive_and_enum() {
    let primitive = Bridged { ts: "number".to_string(), schema: Schema::Number };
    let out = bridge_composite(TypeShape::SingleUnnamed(primitive), NamingRule::SnakeCase)
        .unwrap();
    assert_eq!(out.ts, "number");
    assert_eq!(out.schema, Schema::Number);

    let enumeration = bridge_composite(
        TypeShape::UnitVariants(vec!["On".to_string(), "Off".to_string()]),
        NamingRule::Identity,
    )
    .unwrap();
    let expected_ts = enumeration.ts.clone();
    let expected_schema = Schema::Enum(vec!["On".to_string(), "Off".to_string()]);
    assert_eq!(enumeration.schema, expected_schema);
    let wrapped = bridge_composite(TypeShape::SingleUnnamed(enumeration), NamingRule::Identity)
        .unwrap();
    assert_eq!(wrapped.ts, expected_ts);
    assert_eq!(wrapped.schema, expected_schema);
}
