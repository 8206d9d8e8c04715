use schema_bridge::NamingRule;
use schema_bridge::TypeShape;
use schema_bridge::dispatch::bridge_composite;

fn enum_ts(variants: &[&str], rule: NamingRule) -> String {
    let shape = TypeShape::UnitVariants(variants.iter().map(|v| v.to_string()).collect());
    bridge_composite(shape, rule).unwrap().ts
}

#[test]
fn test_snake_case_rename() {
    let ts = enum_ts(
        &["Normal", "Concise", "Creative", "Academic"],
        NamingRule::SnakeCase,
    );
    assert!(ts.contains("'normal'"));
    assert!(ts.contains("'concise'"));
    assert!(ts.contains("'creative'"));
    assert!(ts.contains("'academic'"));
    assert!(!ts.contains("Normal")); // Should not have PascalCase
}

#[test]
fn test_camel_case_rename() {
    let ts = enum_ts(
        &["IsActive", "IsPending", "IsComplete"],
        NamingRule::CamelCase,
    );
    assert!(ts.contains("'isActive'"));
    assert!(ts.contains("'isPending'"));
    assert!(ts.contains("'isComplete'"));
}

#[test]
fn test_screaming_snake_case_rename() {
    let ts = enum_ts(
        &["LowPriority", "HighPriority"],
        NamingRule::ScreamingSnakeCase,
    );
    assert!(ts.contains("'LOW_PRIORITY'"));
    assert!(ts.contains("'HIGH_PRIORITY'"));
}
