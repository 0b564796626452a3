use obsidian_mcp::json::{parse_json_array_as_strings, Json};
use obsidian_mcp::server::{parse_as_search_results, properties_from};

fn doc(text: &str) -> Json {
    Json::parse(text).expect("valid JSON")
}

#[test]
fn file_list_from_json_array() {
    let raw = doc(r#"["notes/hello.md", "projects/todo.md", "README.md"]"#);
    let files: Vec<String> = parse_json_array_as_strings(&raw);
    assert_eq!(files.len(), 3);
    assert_eq!(files[0], "notes/hello.md");
}

#[test]
fn properties_as_object_to_string_values() {
    let raw = doc(r#"{"title": "My Note", "tags": ["rust", "mcp"], "draft": false}"#);
    let properties = properties_from(None, &raw);
    assert_eq!(properties.len(), 3);
    let tags_prop = properties.iter().find(|p| p.name == "tags").unwrap();
    assert!(tags_prop.value.contains("rust"));
}

#[test]
fn plain_text_lines_to_string_vec() {
    let array = doc(r#"["folder_a", "folder_b/sub", "folder_c"]"#);
    let strings: Vec<String> = parse_json_array_as_strings(&array);
    assert_eq!(strings, vec!["folder_a", "folder_b/sub", "folder_c"]);
}

#[test]
fn search_fallback_from_string_array() {
    let val = doc(r#"["notes/a.md", "notes/b.md"]"#);
    let results = parse_as_search_results(None, &val);
    assert_eq!(results.len(), 2);
    assert_eq!(results[0].file, "notes/a.md");
    assert!(results[0].matches.is_empty());
}
