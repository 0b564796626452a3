use obsidian_mcp::cli::{
    health_check_args, health_check_step, interpret_output, interpret_raw_output,
    vault_open_outcome, CliError, ObsidianCli, StartupStep, VaultOpenOutcome,
    DEFAULT_TIMEOUT_SECS, HEALTH_CHECK_ATTEMPTS,
};
use obsidian_mcp::json::parse_json_array_as_strings;

fn s(x: &str) -> String {
    x.to_string()
}

fn ok_text(stdout: &[u8]) -> String {
    match interpret_output(true, Some(0), stdout, b"") {
        Ok(j) => j.to_compact(),
        Err(e) => panic!("unexpected error: {}", e.to_tool_error()),
    }
}

#[test]
fn error_messages() {
    assert_eq!(
        CliError::Timeout(30).to_tool_error(),
        "Obsidian CLI timed out after 30s — is Obsidian running?"
    );
    assert_eq!(
        CliError::Spawn(s("No such file or directory (os error 2)")).to_tool_error(),
        "Could not start Obsidian CLI: No such file or directory (os error 2)"
    );
    assert_eq!(
        CliError::NonZero { code: Some(-1), stderr: s("busy") }.to_tool_error(),
        "Obsidian CLI error (exit Some(-1)): busy"
    );
    assert_eq!(
        CliError::NonZero { code: None, stderr: s("killed") }.to_tool_error(),
        "Obsidian CLI error (exit None): killed"
    );
    assert_eq!(CliError::Empty.to_tool_error(), "CLI returned empty output");
}

#[test]
fn settings_from_environment() {
    let c = ObsidianCli::from_env(None, None, None);
    assert_eq!(c.bin, "obsidian");
    assert_eq!(c.vault, None);
    assert_eq!(c.timeout_secs, DEFAULT_TIMEOUT_SECS);
    assert_eq!(c.timeout_secs, 30);
    let c = ObsidianCli::from_env(Some(s("Work")), Some(s("/opt/obsidian")), Some(s("45")));
    assert_eq!(c.bin, "/opt/obsidian");
    assert_eq!(c.vault.as_deref(), Some("Work"));
    assert_eq!(c.timeout_secs, 45);
    let c = ObsidianCli::from_env(None, None, Some(s("soon")));
    assert_eq!(c.timeout_secs, 30);
}

#[test]
fn vault_name_and_override() {
    let c = ObsidianCli::from_env(Some(s("Env")), None, None);
    assert_eq!(c.vault_name(), "Env");
    let c = c.with_vault(s("Cli"));
    assert_eq!(c.vault_name(), "Cli");
    assert_eq!(ObsidianCli::from_env(None, None, None).vault_name(), "(auto)");
}

#[test]
fn vault_argument_comes_last() {
    let args = vec![s("read"), s("file=a.md")];
    let c = ObsidianCli::from_env(Some(s("My Vault")), None, None);
    assert_eq!(c.command_args(&args), vec!["read", "file=a.md", "vault=My Vault"]);
    let c = ObsidianCli::from_env(None, None, None);
    assert_eq!(c.command_args(&args), vec!["read", "file=a.md"]);
    assert_eq!(
        ObsidianCli::from_env(Some(s("V")), None, None).vault_open_args(),
        Some(vec![s("vault:open"), s("vault=V")])
    );
    assert_eq!(ObsidianCli::from_env(None, None, None).vault_open_args(), None);
}

#[test]
fn failed_command_reports_code_and_stderr() {
    match interpret_output(false, Some(2), b"ignored", b"boom") {
        Err(CliError::NonZero { code, stderr }) => {
            assert_eq!(code, Some(2));
            assert_eq!(stderr, "boom");
        }
        _ => panic!("expected a failure"),
    }
}

#[test]
fn empty_output_is_an_error() {
    assert!(matches!(interpret_output(true, Some(0), b"", b""), Err(CliError::Empty)));
}

#[test]
fn error_text_on_stdout_is_an_error() {
    for out in [&b"  Error: vault not found\n"[..], &b"error: nope"[..]] {
        match interpret_output(true, Some(0), out, b"") {
            Err(CliError::NonZero { code, stderr }) => {
                assert_eq!(code, Some(0));
                assert!(stderr.starts_with("Error:") || stderr.starts_with("error:"));
                assert_eq!(stderr, String::from_utf8_lossy(out).trim());
            }
            _ => panic!("expected an error"),
        }
    }
}

#[test]
fn json_output_is_normalised() {
    assert_eq!(ok_text(b"[ \"a\" , 1 ]"), r#"["a",1]"#);
    assert_eq!(ok_text(b"{\"b\": 2, \"a\": 1}"), r#"{"a":1,"b":2}"#);
}

#[test]
fn json_on_the_first_line() {
    assert_eq!(ok_text(b"{\"a\": 1}\ntrailing words"), r#"{"a":1}"#);
}

#[test]
fn json_after_a_preamble() {
    assert_eq!(ok_text(b"Found:\n[\"x\", \"y\"]"), r#"["x","y"]"#);
    assert_eq!(ok_text(b"Result: {\"k\": true}"), r#"{"k":true}"#);
}

#[test]
fn plain_text_becomes_an_array_of_lines() {
    assert_eq!(ok_text(b"alpha\n  beta  \r\n\n"), r#"["alpha","beta"]"#);
    assert_eq!(ok_text(b"{ broken"), r#"["{ broken"]"#);
    let j = interpret_output(true, Some(0), b"notes/a.md\nnotes/b.md\n", b"").ok().unwrap();
    assert_eq!(parse_json_array_as_strings(&j), vec!["notes/a.md", "notes/b.md"]);
}

#[test]
fn invalid_utf8_is_replaced() {
    assert_eq!(ok_text(b"caf\xff"), "[\"caf\u{fffd}\"]");
}

#[test]
fn raw_output() {
    assert_eq!(interpret_raw_output(true, Some(0), b"# Note\n", b"").ok().unwrap(), "# Note\n");
    assert_eq!(interpret_raw_output(true, Some(0), b"", b"").ok().unwrap(), "");
    assert!(matches!(
        interpret_raw_output(false, None, b"", b"x"),
        Err(CliError::NonZero { code: None, .. })
    ));
}

#[test]
fn health_check_retries_then_gives_up() {
    assert_eq!(health_check_args(), vec!["version"]);
    let failed: Result<String, CliError> = Err(CliError::Timeout(30));
    let mut attempt = 1;
    let mut probes = 0;
    loop {
        probes += 1;
        match health_check_step(attempt, &failed) {
            StartupStep::Retry { delay_secs, next_attempt } => {
                assert_eq!(delay_secs, 10);
                attempt = next_attempt;
            }
            StartupStep::Abort { message } => {
                assert_eq!(
                    message,
                    "CLI health check failed after 3 attempts: Obsidian CLI timed out after 30s — is Obsidian running?"
                );
                break;
            }
            StartupStep::OpenVault => panic!("no probe succeeded"),
        }
    }
    assert_eq!(probes, HEALTH_CHECK_ATTEMPTS);
    assert!(matches!(health_check_step(2, &Ok(s("1.12.0"))), StartupStep::OpenVault));
}

#[test]
fn vault_open_outcomes() {
    assert!(matches!(vault_open_outcome(&Ok(s(""))), VaultOpenOutcome::Opened));
    assert!(matches!(
        vault_open_outcome(&Err(CliError::NonZero { code: Some(-1), stderr: s("") })),
        VaultOpenOutcome::AlreadyOpen
    ));
    assert!(matches!(
        vault_open_outcome(&Err(CliError::NonZero { code: Some(1), stderr: s("") })),
        VaultOpenOutcome::Failed
    ));
    assert!(matches!(vault_open_outcome(&Err(CliError::Empty)), VaultOpenOutcome::Failed));
}

#[test]
fn the_document_keeps_the_text_it_was_read_from() {
    let j = interpret_output(true, Some(0), b"[ \"a\" , 1 ]", b"").ok().unwrap();
    assert_eq!(j.as_str(), "[ \"a\" , 1 ]");
    let j = interpret_output(true, Some(0), b"{\"a\": 1}\ntrailing words", b"").ok().unwrap();
    assert_eq!(j.as_str(), "{\"a\": 1}");
    let j = interpret_output(true, Some(0), b"Found:\n[\"x\", \"y\"]", b"").ok().unwrap();
    assert_eq!(j.as_str(), "[\"x\", \"y\"]");
}

#[test]
fn plain_text_lines_are_written_with_escapes() {
    let j = interpret_output(true, Some(0), b"a\x0b\"b\\c\x01", b"").ok().unwrap();
    assert_eq!(j.as_str(), r#"["a\u000b\"b\\c\u0001"]"#);
}
