use schema_bridge::NamingRule;
use schema_bridge::convert::name_table;
use schema_bridge::convert::parse_variant;
use schema_bridge::convert::stringify_variant;

// The enumerations under test, each with the string-conversion feature:
// variant identifiers in declaration order, plus the declared rule.

fn talk_style_table() -> Vec<(String, String)> {
    name_table(
        &vec![
            "Brainstorm".to_string(),
            "Casual".to_string(),
            "DecisionMaking".to_string(),
        ],
        NamingRule::SnakeCase,
    )
}

fn status_table() -> Vec<(String, String)> {
    name_table(
        &vec![
            "Active".to_string(),
            "Pending".to_string(),
            "Completed".to_string(),
        ],
        NamingRule::PascalCase,
    )
}

fn priority_table() -> Vec<(String, String)> {
    name_table(
        &vec!["HighPriority".to_string(), "LowPriority".to_string()],
        NamingRule::CamelCase,
    )
}

#[test]
fn test_display_snake_case() {
    let table = talk_style_table();
    assert_eq!(stringify_variant(&table, 0), "brainstorm");
    assert_eq!(stringify_variant(&table, 1), "casual");
    assert_eq!(stringify_variant(&table, 2), "decision_making");
}

#[test]
fn test_fromstr_snake_case() {
    let table = talk_style_table();
    assert_eq!(parse_variant("TalkStyle", &table, "brainstorm").unwrap(), 0);
    assert_eq!(parse_variant("TalkStyle", &table, "casual").unwrap(), 1);
    assert_eq!(
        parse_variant("TalkStyle", &table, "decision_making").unwrap(),
        2
    );
}

#[test]
fn test_fromstr_error() {
    let table = talk_style_table();
    let result = parse_variant("TalkStyle", &table, "invalid");
    assert!(result.is_err());
    assert_eq!(result.unwrap_err(), "Unknown TalkStyle: invalid");
}

#[test]
fn test_display_pascal_case() {
    let table = status_table();
    assert_eq!(stringify_variant(&table, 0), "Active");
    assert_eq!(stringify_variant(&table, 1), "Pending");
    assert_eq!(stringify_variant(&table, 2), "Completed");
}

#[test]
fn test_fromstr_pascal_case() {
    let table = status_table();
    assert_eq!(parse_variant("Status", &table, "Active").unwrap(), 0);
    assert_eq!(parse_variant("Status", &table, "Pending").unwrap(), 1);
    assert_eq!(parse_variant("Status", &table, "Completed").unwrap(), 2);
}

#[test]
fn test_display_camel_case() {
    let table = priority_table();
    assert_eq!(stringify_variant(&table, 0), "highPriority");
    assert_eq!(stringify_variant(&table, 1), "lowPriority");
}

#[test]
fn test_fromstr_camel_case() {
    let table = priority_table();
    assert_eq!(parse_variant("Priority", &table, "highPriority").unwrap(), 0);
    assert_eq!(parse_variant("Priority", &table, "lowPriority").unwrap(), 1);
}

#[test]
fn test_roundtrip() {
    let table = talk_style_table();
    let style = 2; // DecisionMaking
    let as_string = stringify_variant(&table, style);
    let parsed = parse_variant("TalkStyle", &table, &as_string).unwrap();
    assert_eq!(parsed, style);
}
