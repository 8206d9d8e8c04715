use schema_bridge::Bridged;
use schema_bridge::NamingRule;
use schema_bridge::Schema;
use schema_bridge::TypeShape;
use schema_bridge::dispatch::bridge_composite;

fn field(name: &str, ts: &str, schema: Schema) -> (String, Bridged) {
    (name.to_string(), Bridged { ts: ts.to_string(), schema })
}

#[test]
fn test_struct_camel_case_rename() {
    let shape = TypeShape::NamedFields(vec![
        field("user_name", "string", Schema::String),
        field("max_retries", "number", Schema::Number),
        field("is_active", "boolean", Schema::Boolean),
    ]);
    let ts = bridge_composite(shape, NamingRule::CamelCase).unwrap().ts;
    println!("UserConfig TS: {}", ts);
    assert!(ts.contains("userName:"), "Should contain 'userName:'");
    assert!(ts.contains("maxRetries:"), "Should contain 'maxRetries:'");
    assert!(ts.contains("isActive:"), "Should contain 'isActive:'");
    assert!(
        !ts.contains("user_name:"),
        "Should not contain 'user_name:'"
    );
}

#[test]
fn test_struct_snake_case_rename() {
    let shape = TypeShape::NamedFields(vec![
        field("status_code", "number", Schema::Number),
        field(
            "error_message",
            "string | null",
            Schema::Union(vec![Schema::String, Schema::Null]),
        ),
    ]);
    let ts = bridge_composite(shape, NamingRule::SnakeCase).unwrap().ts;
    println!("ApiResponse TS: {}", ts);
    // When fields are already in snake_case, the snake_case rule keeps them as-is
    assert!(ts.contains("status_code:"), "Should contain 'status_code:'");
    assert!(
        ts.contains("error_message:"),
        "Should contain 'error_message:'"
    );
}

#[test]
fn test_struct_pascal_case_rename() {
    let shape = TypeShape::NamedFields(vec![
        field("database_url", "string", Schema::String),
        field("cache_enabled", "boolean", Schema::Boolean),
    ]);
    let ts = bridge_composite(shape, NamingRule::PascalCase).unwrap().ts;
    println!("SystemSettings TS: {}", ts);
    assert!(ts.contains("DatabaseUrl:"), "Should contain 'DatabaseUrl:'");
    assert!(
        ts.contains("CacheEnabled:"),
        "Should contain 'CacheEnabled:'"
    );
    assert!(
        !ts.contains("database_url:"),
        "Should not contain 'database_url:'"
    );
}
