use obsidian_mcp::js::{eval_modify_js, eval_patch_js, eval_replace_line_js, js_escape_text};

fn payload(entries: Vec<(&str, serde_json::Value)>) -> String {
    let mut m = serde_json::Map::new();
    for (k, v) in entries {
        m.insert(k.to_string(), v);
    }
    serde_json::Value::Object(m)
        .to_string()
        .replace('\\', "\\\\")
        .replace('\'', "\\'")
}

#[test]
fn escaping_doubles_backslashes_then_quotes() {
    assert_eq!(js_escape_text(r#"a\b'c"#), r#"a\\b\'c"#);
    assert_eq!(js_escape_text("plain"), "plain");
    assert_eq!(js_escape_text(r"\'"), r"\\\'");
}

#[test]
fn modify_script() {
    let path = "notes/it's.md";
    let content = "line \"one\"\nback\\slash";
    let encoded = payload(vec![("path", path.into()), ("content", content.into())]);
    let expected = format!(
        "(async()=>{{const d=JSON.parse('{encoded}');const f=app.vault.getAbstractFileByPath(d.path);if(!f)throw new Error('File not found: '+d.path);await app.vault.modify(f,d.content);}})()"
    );
    assert_eq!(eval_modify_js(path, content), expected);
    assert!(expected.contains(r#"JSON.parse('{"content":"#));
}

#[test]
fn patch_script_method() {
    let encoded = payload(vec![("path", "a.md".into()), ("find", "x".into()), ("replace", "y".into())]);
    for (all, method) in [(true, "replaceAll"), (false, "replace")] {
        let expected = format!(
            "(async()=>{{const d=JSON.parse('{encoded}');const f=app.vault.getAbstractFileByPath(d.path);if(!f)throw new Error('File not found: '+d.path);let c=await app.vault.read(f);c=c.{method}(d.find,d.replace);await app.vault.modify(f,c);}})()"
        );
        assert_eq!(eval_patch_js("a.md", "x", "y", all), expected);
    }
}

#[test]
fn replace_line_script() {
    let encoded = payload(vec![
        ("path", "a.md".into()),
        ("line", 3u32.into()),
        ("expected", "old".into()),
        ("replace", "new".into()),
    ]);
    let expected = format!(
        r#"(async()=>{{const d=JSON.parse('{encoded}');const f=app.vault.getAbstractFileByPath(d.path);if(!f)throw new Error('File not found: '+d.path);let c=await app.vault.read(f);const lines=c.split(/\r?\n/);const idx=d.line-1;if(!Number.isInteger(d.line)||d.line<1)throw new Error('Line number must be >= 1');if(idx>=lines.length)throw new Error('Line '+d.line+' out of range (file has '+lines.length+' lines)');if(lines[idx]!==d.expected)throw new Error('Line '+d.line+' conflict: expected "'+d.expected+'" but found "'+lines[idx]+'"');lines[idx]=d.replace;const eol=c.includes('\r\n')?'\r\n':'\n';await app.vault.modify(f,lines.join(eol));}})()"#
    );
    assert_eq!(eval_replace_line_js("a.md", 3, "old", "new"), expected);
    assert!(expected.contains(r#""line":3"#));
}
