use schema_bridge::Schema;
use schema_bridge::SchemaBridge;
use schema_bridge::generate_ts_file;
use std::collections::BTreeMap;
use std::collections::BTreeSet;
use std::collections::HashMap;
use std::collections::HashSet;
use std::path::PathBuf;
use std::rc::Rc;
use std::sync::Arc;

#[test]
fn test_string_to_ts() {
    assert_eq!(String::to_ts(), "string");
}

#[test]
fn test_i32_to_ts() {
    assert_eq!(i32::to_ts(), "number");
}

#[test]
fn test_bool_to_ts() {
    assert_eq!(bool::to_ts(), "boolean");
}

#[test]
fn test_option_to_ts() {
    assert_eq!(Option::<String>::to_ts(), "string | null");
    assert_eq!(Option::<i32>::to_ts(), "number | null");
}

#[test]
fn test_vec_to_ts() {
    assert_eq!(Vec::<String>::to_ts(), "string[]");
    assert_eq!(Vec::<i32>::to_ts(), "number[]");
}

#[test]
fn test_nested_vec() {
    assert_eq!(Vec::<Vec<String>>::to_ts(), "string[][]");
}

#[test]
fn test_optional_vec() {
    assert_eq!(Option::<Vec<String>>::to_ts(), "string[] | null");
}

#[test]
fn test_generate_ts_file() {
    let types = vec![
        ("User", "{ name: string; age: number; }".to_string()),
        ("Status", "'Active' | 'Inactive'".to_string()),
    ];

    let result = generate_ts_file(types);

    assert!(result.contains("// This file is auto-generated by schema-bridge"));
    assert!(result.contains("export type User = { name: string; age: number; };"));
    assert!(result.contains("export type Status = 'Active' | 'Inactive';"));
}

#[test]
fn test_schema_enum() {
    let schema = Schema::String;
    assert_eq!(schema, Schema::String);

    let schema = Schema::Array(Box::new(Schema::Number));
    assert!(matches!(schema, Schema::Array(_)));
}

#[test]
fn test_pathbuf_to_ts() {
    assert_eq!(PathBuf::to_ts(), "string");
}

#[test]
fn test_pathbuf_to_schema() {
    assert_eq!(PathBuf::to_schema(), Schema::String);
}

#[test]
fn test_hashmap_to_ts() {
    assert_eq!(HashMap::<String, i32>::to_ts(), "Record<string, number>");
    assert_eq!(HashMap::<String, String>::to_ts(), "Record<string, string>");
}

#[test]
fn test_hashmap_to_schema() {
    let schema = HashMap::<String, i32>::to_schema();
    assert!(matches!(schema, Schema::Record { .. }));
    if let Schema::Record { key, value } = schema {
        assert_eq!(*key, Schema::String);
        assert_eq!(*value, Schema::Number);
    }
}

#[test]
fn test_nested_hashmap() {
    assert_eq!(
        HashMap::<String, Vec<String>>::to_ts(),
        "Record<string, string[]>"
    );
}

#[test]
fn test_optional_hashmap() {
    assert_eq!(
        Option::<HashMap<String, i32>>::to_ts(),
        "Record<string, number> | null"
    );
}

#[test]
fn test_numeric_types() {
    assert_eq!(i8::to_ts(), "number");
    assert_eq!(i16::to_ts(), "number");
    assert_eq!(i64::to_ts(), "number");
    assert_eq!(i128::to_ts(), "number");
    assert_eq!(isize::to_ts(), "number");
    assert_eq!(u8::to_ts(), "number");
    assert_eq!(u16::to_ts(), "number");
    assert_eq!(u32::to_ts(), "number");
    assert_eq!(u64::to_ts(), "number");
    assert_eq!(u128::to_ts(), "number");
    assert_eq!(usize::to_ts(), "number");
}

#[test]
fn test_char_to_ts() {
    assert_eq!(char::to_ts(), "string");
    assert_eq!(char::to_schema(), Schema::String);
}

#[test]
fn test_unit_to_ts() {
    assert_eq!(<()>::to_ts(), "null");
    assert_eq!(<()>::to_schema(), Schema::Null);
}

#[test]
fn test_btreemap_to_ts() {
    assert_eq!(BTreeMap::<String, i32>::to_ts(), "Record<string, number>");
}

#[test]
fn test_hashset_to_ts() {
    assert_eq!(HashSet::<String>::to_ts(), "string[]");
    assert_eq!(HashSet::<i32>::to_ts(), "number[]");
}

#[test]
fn test_btreeset_to_ts() {
    assert_eq!(BTreeSet::<String>::to_ts(), "string[]");
    assert_eq!(BTreeSet::<i32>::to_ts(), "number[]");
}

#[test]
fn test_box_to_ts() {
    assert_eq!(Box::<String>::to_ts(), "string");
    assert_eq!(Box::<i32>::to_ts(), "number");
    assert_eq!(Box::<String>::to_schema(), Schema::String);
}

#[test]
fn test_rc_to_ts() {
    assert_eq!(Rc::<String>::to_ts(), "string");
    assert_eq!(Rc::<i32>::to_ts(), "number");
}

#[test]
fn test_arc_to_ts() {
    assert_eq!(Arc::<String>::to_ts(), "string");
    assert_eq!(Arc::<i32>::to_ts(), "number");
}

#[test]
fn test_result_to_ts() {
    assert_eq!(Result::<String, String>::to_ts(), "string | string");
    assert_eq!(Result::<i32, String>::to_ts(), "number | string");
}

#[test]
fn test_result_to_schema() {
    let schema = Result::<String, i32>::to_schema();
    assert!(matches!(schema, Schema::Union(_)));
    if let Schema::Union(types) = schema {
        assert_eq!(types.len(), 2);
        assert_eq!(types[0], Schema::String);
        assert_eq!(types[1], Schema::Number);
    }
}

#[test]
fn test_tuple_1() {
    assert_eq!(<(String,)>::to_ts(), "[string]");
    let schema = <(String,)>::to_schema();
    assert!(matches!(schema, Schema::Tuple(_)));
}

#[test]
fn test_tuple_2() {
    assert_eq!(<(String, i32)>::to_ts(), "[string, number]");
}

#[test]
fn test_tuple_3() {
    assert_eq!(<(String, i32, bool)>::to_ts(), "[string, number, boolean]");
}

#[test]
fn test_tuple_schema() {
    let schema = <(String, i32)>::to_schema();
    if let Schema::Tuple(types) = schema {
        assert_eq!(types.len(), 2);
        assert_eq!(types[0], Schema::String);
        assert_eq!(types[1], Schema::Number);
    } else {
        panic!("Expected Tuple schema");
    }
}

#[test]
fn test_complex_types() {
    assert_eq!(Option::<Box<String>>::to_ts(), "string | null");
    assert_eq!(Vec::<Arc<String>>::to_ts(), "string[]");
    assert_eq!(
        HashMap::<String, Vec<i32>>::to_ts(),
        "Record<string, number[]>"
    );
}
