use obsidian_mcp::cli::{CliError, ObsidianCli};
use obsidian_mcp::json::Json;
use obsidian_mcp::server::{
    cli_err, create_file_args, daily_open_result, daily_read_result, daily_summary_prompt,
    delete_file_result, file_info_result, file_list, find_related_prompt, list_files_args,
    move_file_args, move_file_result, outline_entries, parse_as_links, patch_file_args,
    patch_file_result, properties_from, read_resource_args, rename_file_result,
    rename_tag_result, replace_line_result, resource_catalog, resource_text,
    review_orphans_prompt, search_results, set_property_args, set_property_result, tag_counts,
    task_items, eval_result, word_count_result, write_file_args, CommandArg, CreateFileArgs, EvalArg,
    FilePathArg, ListFilesArgs, MoveFileArgs, ObsidianServer, PatchFileArgs, RenameFileArgs,
    RenameTagArgs, ReplaceLineArgs, AppendPrependArgs, SetPropertyArgs,
};
use obsidian_mcp::js::{eval_modify_js, eval_patch_js};
use obsidian_mcp::types::{FileInfo, PropertyValue, WordCountResult};

fn s(x: &str) -> String {
    x.to_string()
}

fn doc(text: &str) -> Json {
    Json::parse(text).expect("valid JSON")
}

fn server(dangerous: bool) -> ObsidianServer {
    let setting = if dangerous { Some(s("true")) } else { None };
    ObsidianServer::new(ObsidianCli::from_env(Some(s("Notes")), None, None), setting)
}

#[test]
fn list_files_arguments() {
    assert_eq!(list_files_args(&ListFilesArgs { sort: None, limit: None }), vec!["files"]);
    assert_eq!(
        list_files_args(&ListFilesArgs { sort: Some(s("size")), limit: Some(s("20")) }),
        vec!["files", "sort=size", "limit=20"]
    );
    assert_eq!(
        list_files_args(&ListFilesArgs { sort: None, limit: Some(s("5")) }),
        vec!["files", "limit=5"]
    );
}

#[test]
fn file_list_counts_its_files() {
    let l = file_list(&doc(r#"["a.md", 3, "b.md", null]"#));
    assert_eq!(l.files, vec!["a.md", "b.md"]);
    assert_eq!(l.count, 2);
    let l = file_list(&doc(r#"{"a": "b"}"#));
    assert!(l.files.is_empty());
    assert_eq!(l.count, 0);
}

#[test]
fn create_file_uses_path_or_name() {
    let a = CreateFileArgs { name: s("projects/new.md"), content: Some(s("# Hi")), template: None };
    assert_eq!(create_file_args(&a), vec!["create", "path=projects/new.md", "content=# Hi"]);
    let a = CreateFileArgs { name: s("idea"), content: None, template: Some(s("Daily")) };
    assert_eq!(create_file_args(&a), vec!["create", "name=idea", "template=Daily"]);
    let a = CreateFileArgs { name: s(r"dir\idea"), content: None, template: None };
    assert_eq!(create_file_args(&a), vec!["create", r"path=dir\idea"]);
}

#[test]
fn write_and_patch_go_through_eval() {
    let a = AppendPrependArgs { file: s("a.md"), content: s("x") };
    assert_eq!(write_file_args(&a), vec![s("eval"), format!("code={}", eval_modify_js("a.md", "x"))]);
    let p = PatchFileArgs { file: s("a.md"), find: s("x"), replace: s("y"), replace_all: None };
    assert_eq!(patch_file_args(&p), vec![s("eval"), format!("code={}", eval_patch_js("a.md", "x", "y", false))]);
    let r = patch_file_result(p);
    assert_eq!((r.path.as_str(), r.replacements, r.message.as_str()), ("a.md", 1, "Patch applied"));
    let p = PatchFileArgs { file: s("a.md"), find: s("x"), replace: s("y"), replace_all: Some(true) };
    assert_eq!(patch_file_result(p).replacements, 0);
}

#[test]
fn result_messages() {
    let r = move_file_result(MoveFileArgs { file: s("a.md"), to: s("b/a.md") });
    assert_eq!(r.path, "b/a.md");
    assert_eq!(r.message, "File moved from 'a.md'. Wikilinks updated.");
    assert_eq!(
        move_file_args(&MoveFileArgs { file: s("a.md"), to: s("b/a.md") }),
        vec!["move", "file=a.md", "to=b/a.md"]
    );
    let r = rename_file_result(RenameFileArgs { file: s("a.md"), to: s("c.md") });
    assert_eq!(r.message, "File renamed from 'a.md'");
    let r = delete_file_result(&FilePathArg { file: s("a.md") });
    assert!(r.success);
    assert_eq!(r.message, "File 'a.md' moved to trash");
    let r = replace_line_result(ReplaceLineArgs { file: s("a.md"), line: 12, expected: s(""), replace: s("") });
    assert_eq!(r.message, "Line 12 replaced");
    let r = set_property_result(&SetPropertyArgs { file: s("a.md"), name: s("status"), value: s("done") });
    assert_eq!(r.message, "Property 'status' set on 'a.md'");
    assert_eq!(
        set_property_args(&SetPropertyArgs { file: s("a.md"), name: s("status"), value: s("done") }),
        vec!["property:set", "file=a.md", "name=status", "value=done"]
    );
    let r = rename_tag_result(&RenameTagArgs { old: s("a"), new: s("b") });
    assert_eq!(r.message, "Tag 'a' renamed to 'b' vault-wide");
}

#[test]
fn file_info_parse_failure_message() {
    let e = file_info_result(Err(s("missing field `path`"))).err().unwrap();
    assert_eq!(e, "Failed to parse file info: missing field `path`");
    let info = FileInfo { path: s("a.md"), name: None, size: Some(3), created: None, modified: None };
    assert_eq!(file_info_result(Ok(info)).ok().unwrap().size, Some(3));
}

#[test]
fn search_and_link_fallbacks() {
    let links = parse_as_links(None, &doc(r#"["x.md", "y.md"]"#));
    assert_eq!(links.len(), 2);
    assert_eq!(links[1].target, "y.md");
    assert!(links[0].display_text.is_none());
    let r = search_results(s("rust"), Vec::new());
    assert_eq!(r.total_matches, 0);
    assert_eq!(r.query, "rust");
}

#[test]
fn properties_from_object_or_list() {
    let props = properties_from(None, &doc(r#"{"b": [1, 2], "a": "x"}"#));
    let pairs: Vec<(String, String)> = props.into_iter().map(|p| (p.name, p.value)).collect();
    assert_eq!(pairs, vec![(s("a"), s("\"x\"")), (s("b"), s("[1,2]"))]);
    let parsed = vec![PropertyValue { name: s("n"), value: s("v") }];
    assert_eq!(properties_from(Some(parsed), &doc("[]")).len(), 1);
    assert!(properties_from(None, &doc("[]")).is_empty());
}

#[test]
fn tag_outline_task_fallbacks() {
    let tags = tag_counts(None, &doc(r##"["#a", "#b"]"##));
    assert_eq!((tags[0].tag.as_str(), tags[0].count), ("#a", 0));
    let heads = outline_entries(None, &doc(r#"["Intro"]"#));
    assert_eq!((heads[0].heading.as_str(), heads[0].level, heads[0].line), ("Intro", 0, None));
    let tasks = task_items(None, &doc(r#"["- [ ] buy"]"#));
    assert_eq!(tasks[0].text, "- [ ] buy");
    assert_eq!(tasks[0].file, "");
    assert!(!tasks[0].completed);
}

#[test]
fn daily_note_path() {
    assert_eq!(daily_open_result(&doc(r#""daily/2026-03-19.md""#)).path, "daily/2026-03-19.md");
    assert_eq!(daily_open_result(&doc(r#"{"path": "d.md", "x": 1}"#)).path, "d.md");
    assert_eq!(daily_open_result(&doc(r#"{"path": 3}"#)).path, "daily note");
    assert_eq!(daily_open_result(&doc(r#"["d.md"]"#)).path, "daily note");
    let r = daily_read_result(s("body"), &Ok(s("  daily/today.md\n")));
    assert_eq!((r.path.as_str(), r.content.as_str()), ("daily/today.md", "body"));
    let r = daily_read_result(s("body"), &Err(CliError::Empty));
    assert_eq!(r.path, "daily note");
}

#[test]
fn word_count_fallback() {
    let w = word_count_result(s("a.md"), None, &doc(r#"["Words: 350", "Characters: 2100"]"#));
    assert_eq!((w.words, w.characters), (350, None));
    assert_eq!(w.file, "a.md");
    let w = word_count_result(s("a.md"), None, &doc(r#"["none here"]"#));
    assert_eq!(w.words, 0);
    let parsed = WordCountResult { file: s("x.md"), words: 7, characters: Some(30) };
    assert_eq!(word_count_result(s("a.md"), Some(parsed), &doc("{}")).file, "x.md");
}

#[test]
fn dangerous_tools_are_refused_when_off() {
    let off = server(false);
    assert_eq!(
        off.execute_command_args(&CommandArg { id: s("app:reload") }).err().unwrap(),
        "execute_command is disabled. Set ENABLE_DANGEROUS_TOOLS=true to enable."
    );
    assert_eq!(
        off.eval_js_args(&EvalArg { code: s("1") }).err().unwrap(),
        "eval_js is disabled. Set ENABLE_DANGEROUS_TOOLS=true to enable."
    );
    let on = server(true);
    assert_eq!(on.execute_command_args(&CommandArg { id: s("app:reload") }).ok().unwrap(), vec!["command", "id=app:reload"]);
    assert_eq!(on.eval_js_args(&EvalArg { code: s("1+1") }).ok().unwrap(), vec!["eval", "code=1+1"]);
}

#[test]
fn instructions_name_the_vault() {
    let text = server(false).instructions();
    assert!(text.starts_with("Obsidian vault MCP server for vault 'Notes'. Use tools"));
    assert!(text.ends_with("Dangerous tools (eval_js, execute_command) are disabled."));
    let auto = ObsidianServer::new(ObsidianCli::from_env(None, None, None), Some(s("true"))).instructions();
    assert!(auto.contains("vault '(auto)'"));
    assert!(auto.ends_with("are ENABLED."));
}

#[test]
fn prompts() {
    let p = daily_summary_prompt(&Ok(s("- met Bob")));
    assert!(p.ends_with(":\n\n- met Bob"));
    let p = daily_summary_prompt(&Err(CliError::Empty));
    assert!(p.ends_with("(Could not read daily note -- it may not exist yet)"));
    let p = find_related_prompt("rust", &Ok(doc(r#"["a.md"]"#)));
    assert!(p.starts_with("I searched my Obsidian vault for 'rust' and found these results:\n\n[\n  \"a.md\"\n]\n\nPlease analyze"));
    let p = review_orphans_prompt(&Err(CliError::Empty));
    assert!(p.contains("(orphans):\n\n[]\n\nPlease review"));
}

#[test]
fn resources() {
    let c = resource_catalog();
    assert_eq!(c.len(), 3);
    assert_eq!(c[0].uri, "vault://files");
    assert_eq!(c[2].name, "All Tags");
    assert_eq!(read_resource_args("vault://tags"), Some(vec![s("tags")]));
    assert_eq!(read_resource_args("vault://nope"), None);
    assert_eq!(resource_text(&doc(r#"{"a":1}"#)), "{\n  \"a\": 1\n}");
}

#[test]
fn tool_errors_use_the_cli_message() {
    assert_eq!(cli_err(CliError::Empty), "CLI returned empty output");
}

#[test]
fn dangerous_tools_need_the_value_true() {
    let cli = ObsidianCli::from_env(None, None, None);
    assert!(ObsidianServer::new(cli, Some(s("true"))).dangerous_enabled);
    for other in ["false", "", "TRUE", "1", "true "] {
        let cli = ObsidianCli::from_env(None, None, None);
        let off = ObsidianServer::new(cli, Some(s(other)));
        assert!(!off.dangerous_enabled);
        assert_eq!(
            off.eval_js_args(&EvalArg { code: s("1") }).err().unwrap(),
            "eval_js is disabled. Set ENABLE_DANGEROUS_TOOLS=true to enable."
        );
    }
    let cli = ObsidianCli::from_env(None, None, None);
    assert!(!ObsidianServer::new(cli, None).dangerous_enabled);
}

#[test]
fn eval_result_is_compact_json() {
    assert_eq!(eval_result(&doc("{ \"ok\" : [1, 2] }")).result, r#"{"ok":[1,2]}"#);
    assert_eq!(eval_result(&doc("\"done\"")).result, r#""done""#);
}

#[test]
fn readings_parse_the_source_text() {
    let d = doc("[ 1.5 , \"x\" ]");
    assert_eq!(d.as_str(), "[ 1.5 , \"x\" ]");
    assert_eq!(d.to_compact(), "[1.5,\"x\"]");
    assert_eq!(resource_text(&d), "[\n  1.5,\n  \"x\"\n]");
}
