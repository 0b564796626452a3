//! The Obsidian command line: its settings, the arguments it is given, what its output
//! means, and the decisions taken while checking that it is reachable.
use vstd::prelude::*;
use crate::json::{Json, array_strings, json_canonical_of, json_of_strings, json_string_array};
use crate::text::{
    chars_of, concat2, concat3, decimal, first_index_of, find_char, first_line, i64_to_string,
    lines, nonblank_lines, nonblank_lines_of, owned, parse_u64, parse_u64_chars, signed_decimal,
    slice_chars, starts_with, string_from_chars, trim, trim_chars, u64_to_string, utf8_lossy,
    utf8_lossy_of, views,
};

verus! {

/// Ways a call of the Obsidian command line can fail.
pub enum CliError {
    /// The command did not finish within the timeout (in seconds).
    Timeout(u64),
    /// The command could not be started; the message of the operating system's error.
    Spawn(String),
    /// The command failed, or reported an error on standard output.
    NonZero { code: Option<i32>, stderr: String },
    /// The command printed nothing.
    Empty,
}

/// How `{:?}` writes an optional exit code.
pub open spec fn code_debug(code: Option<i32>) -> Seq<char> {
    match code {
        Some(c) => "Some("@ + signed_decimal(c as int) + ")"@,
        None => "None"@,
    }
}

impl CliError {
    /// The message of the error.
    pub open spec fn message(&self) -> Seq<char> {
        match self {
            CliError::Timeout(secs) => "Obsidian CLI timed out after "@ + decimal(*secs as nat)
                + "s — is Obsidian running?"@,
            CliError::Spawn(e) => "Could not start Obsidian CLI: "@ + e@,
            CliError::NonZero { code, stderr } => "Obsidian CLI error (exit "@ + code_debug(*code)
                + "): "@ + stderr@,
            CliError::Empty => "CLI returned empty output"@,
        }
    }

    /// The message that a tool reports for this error.
    pub fn to_tool_error(&self) -> (r: String)
        ensures
            r@ == self.message(),
    {
        match self {
            CliError::Timeout(secs) => {
                let n = u64_to_string(*secs);
                concat3("Obsidian CLI timed out after ", n.as_str(), "s — is Obsidian running?")
            },
            CliError::Spawn(e) => concat2("Could not start Obsidian CLI: ", e.as_str()),
            CliError::NonZero { code, stderr } => {
                let c = match code {
                    Some(c) => {
                        let n = i64_to_string(*c as i64);
                        concat3("Some(", n.as_str(), ")")
                    },
                    None => owned("None"),
                };
                concat3(concat2("Obsidian CLI error (exit ", c.as_str()).as_str(), "): ", stderr.as_str())
            },
            CliError::Empty => owned("CLI returned empty output"),
        }
    }
}

/// The error a failed command reports: its exit code and what it wrote to standard error.
pub open spec fn failed_with(r: CliError, code: Option<i32>, stderr: Seq<u8>) -> bool {
    r matches CliError::NonZero { code: c, stderr: e } && c == code && e@ == utf8_lossy_of(stderr)
}

/// Whether trimmed output announces an error.
pub open spec fn is_error_text(t: Seq<char>) -> bool {
    "Error:"@.is_prefix_of(t) || "error:"@.is_prefix_of(t)
}

/// Where a JSON document may start in `raw`: the first '[', or else the first '{'.
pub open spec fn json_start(raw: Seq<char>) -> Option<int> {
    match first_index_of(raw, '[') {
        Some(i) => Some(i),
        None => first_index_of(raw, '{'),
    }
}

/// The text of the document that the standard output `raw` of a command gives: `raw` itself
/// where it is JSON; else its first line where that is; else the text from `json_start` on
/// where that is; else the array of its trimmed non-empty lines.
pub open spec fn output_json(raw: Seq<char>) -> Seq<char> {
    if json_canonical_of(raw) is Some {
        raw
    } else if json_canonical_of(lines(raw)[0]) is Some {
        lines(raw)[0]
    } else {
        match json_start(raw) {
            Some(i) => if json_canonical_of(raw.skip(i)) is Some {
                raw.skip(i)
            } else {
                json_of_strings(nonblank_lines(raw))
            },
            None => json_of_strings(nonblank_lines(raw)),
        }
    }
}

/// `raw.find('[').or_else(|| raw.find('{'))`, in characters.
fn json_start_index(raw: &[char]) -> (r: Option<usize>)
    ensures
        match r {
            Some(i) => json_start(raw@) == Some(i as int) && i < raw.len(),
            None => json_start(raw@) is None,
        },
{
    match find_char(raw, '[') {
        Some(i) => Some(i),
        None => find_char(raw, '{'),
    }
}

proof fn lemma_first_index_is(s: Seq<char>, c: char, i: int)
    requires
        0 <= i < s.len(),
        s[i] == c,
        forall|k: int| 0 <= k < i ==> s[k] != c,
    ensures
        first_index_of(s, c) == Some(i),
{
    assert(0 <= i < s.len() && s[i] == c);
    let w = choose|k: int| 0 <= k < s.len() && s[k] == c && forall|j: int| 0 <= j < k ==> s[j] != c;
    assert(0 <= w < s.len() && s[w] == c && forall|j: int| 0 <= j < w ==> s[j] != c);
    if w < i {
        assert(s[w] != c);
    } else if w > i {
        assert(s[i] != c);
    }
}

proof fn lemma_no_index(s: Seq<char>, c: char)
    requires
        forall|k: int| 0 <= k < s.len() ==> s[k] != c,
    ensures
        first_index_of(s, c) is None,
{
}

/// Where the document is looked for after the whole output and its first line: at the first
/// `[` where the output holds one, at the first `{` only where it holds no `[`, and nowhere
/// where it holds neither.
pub proof fn lemma_json_start_prefers_brackets(raw: Seq<char>)
    ensures
        forall|i: int|
            #![trigger raw[i]]
            0 <= i < raw.len() && raw[i] == '[' && (forall|k: int| 0 <= k < i ==> raw[k] != '[')
                ==> json_start(raw) == Some(i),
        (forall|k: int| 0 <= k < raw.len() ==> raw[k] != '[') ==> forall|i: int|
            #![trigger raw[i]]
            0 <= i < raw.len() && raw[i] == '{' && (forall|k: int| 0 <= k < i ==> raw[k] != '{')
                ==> json_start(raw) == Some(i),
        (forall|k: int| 0 <= k < raw.len() ==> raw[k] != '[' && raw[k] != '{') ==> json_start(raw) is None,
{
    assert forall|i: int|
        #![trigger raw[i]]
        0 <= i < raw.len() && raw[i] == '[' && (forall|k: int| 0 <= k < i ==> raw[k] != '[')
            implies json_start(raw) == Some(i) by {
        lemma_first_index_is(raw, '[', i);
    }
    if forall|k: int| 0 <= k < raw.len() ==> raw[k] != '[' {
        lemma_no_index(raw, '[');
        assert forall|i: int|
            #![trigger raw[i]]
            0 <= i < raw.len() && raw[i] == '{' && (forall|k: int| 0 <= k < i ==> raw[k] != '{')
                implies json_start(raw) == Some(i) by {
            lemma_first_index_is(raw, '{', i);
        }
        if forall|k: int| 0 <= k < raw.len() ==> raw[k] != '[' && raw[k] != '{' {
            lemma_no_index(raw, '{');
        }
    }
}

/// Output that is not JSON as a whole nor on its first line, but is from its first `[` on,
/// gives the document read from that `[` (the first `{` is not tried where a `[` exists).
pub proof fn law_output_read_from_first_bracket(
    code: Option<i32>,
    stdout: &[u8],
    stderr: &[u8],
    r: Result<Json, CliError>,
    i: int,
)
    requires
        call_ensures(interpret_output, (true, code, stdout, stderr), r),
        stdout@.len() > 0,
        !is_error_text(trim(utf8_lossy_of(stdout@))),
        json_canonical_of(utf8_lossy_of(stdout@)) is None,
        json_canonical_of(lines(utf8_lossy_of(stdout@))[0]) is None,
        0 <= i < utf8_lossy_of(stdout@).len(),
        utf8_lossy_of(stdout@)[i] == '[',
        forall|k: int| 0 <= k < i ==> utf8_lossy_of(stdout@)[k] != '[',
        json_canonical_of(utf8_lossy_of(stdout@).skip(i)) is Some,
    ensures
        r matches Ok(j) && j@ == utf8_lossy_of(stdout@).skip(i),
{
    lemma_first_index_is(utf8_lossy_of(stdout@), '[', i);
}

/// Output with no `[` that is not JSON as a whole nor on its first line, but is from its
/// first `{` on, gives the document read from that `{`.
pub proof fn law_output_read_from_first_brace(
    code: Option<i32>,
    stdout: &[u8],
    stderr: &[u8],
    r: Result<Json, CliError>,
    i: int,
)
    requires
        call_ensures(interpret_output, (true, code, stdout, stderr), r),
        stdout@.len() > 0,
        !is_error_text(trim(utf8_lossy_of(stdout@))),
        json_canonical_of(utf8_lossy_of(stdout@)) is None,
        json_canonical_of(lines(utf8_lossy_of(stdout@))[0]) is None,
        forall|k: int| 0 <= k < utf8_lossy_of(stdout@).len() ==> utf8_lossy_of(stdout@)[k] != '[',
        0 <= i < utf8_lossy_of(stdout@).len(),
        utf8_lossy_of(stdout@)[i] == '{',
        forall|k: int| 0 <= k < i ==> utf8_lossy_of(stdout@)[k] != '{',
        json_canonical_of(utf8_lossy_of(stdout@).skip(i)) is Some,
    ensures
        r matches Ok(j) && j@ == utf8_lossy_of(stdout@).skip(i),
{
    lemma_no_index(utf8_lossy_of(stdout@), '[');
    lemma_first_index_is(utf8_lossy_of(stdout@), '{', i);
}

/// Output that is JSON as a whole is the document as it stands; output that is not, but whose
/// first line is, gives the document of that line (before any `[` or `{` further on is tried).
pub proof fn law_output_whole_then_first_line(
    code: Option<i32>,
    stdout: &[u8],
    stderr: &[u8],
    r: Result<Json, CliError>,
)
    requires
        call_ensures(interpret_output, (true, code, stdout, stderr), r),
        stdout@.len() > 0,
        !is_error_text(trim(utf8_lossy_of(stdout@))),
    ensures
        json_canonical_of(utf8_lossy_of(stdout@)) is Some ==> (r matches Ok(j) && j@ == utf8_lossy_of(
            stdout@,
        )),
        (json_canonical_of(utf8_lossy_of(stdout@)) is None && json_canonical_of(
            lines(utf8_lossy_of(stdout@))[0],
        ) is Some) ==> (r matches Ok(j) && j@ == lines(utf8_lossy_of(stdout@))[0]),
{
}

/// Whether no part of `raw` that `output_json` tries is JSON, so that the document made of
/// it is the array of its lines.
pub open spec fn is_plain_text(raw: Seq<char>) -> bool {
    &&& json_canonical_of(raw) is None
    &&& json_canonical_of(lines(raw)[0]) is None
    &&& match json_start(raw) {
        Some(i) => json_canonical_of(raw.skip(i)) is None,
        None => true,
    }
}

proof fn lemma_strings_read_back(items: Seq<Seq<char>>)
    ensures
        items.map_values(|s: Seq<char>| Some(s)).filter_map(|o: Option<Seq<char>>| o) == items,
    decreases items.len(),
{
    let wrapped = items.map_values(|s: Seq<char>| Some(s));
    if items.len() > 0 {
        lemma_strings_read_back(items.drop_last());
        assert(wrapped.drop_last() =~= items.drop_last().map_values(|s: Seq<char>| Some(s)));
        assert(wrapped.last() == Some(items.last()));
        assert(items.drop_last().push(items.last()) =~= items);
    } else {
        assert(wrapped.filter_map(|o: Option<Seq<char>>| o) =~= items);
    }
}

/// What a command that returns JSON gives: the command's failure, or no output, or an
/// error it announced on standard output, or the document made of its output.
pub fn interpret_output(success: bool, code: Option<i32>, stdout: &[u8], stderr: &[u8]) -> (r:
    Result<Json, CliError>)
    ensures
        !success ==> (r matches Err(e) && failed_with(e, code, stderr@)),
        success && stdout@.len() == 0 ==> r matches Err(CliError::Empty),
        success && stdout@.len() > 0 ==> ({
            let raw = utf8_lossy_of(stdout@);
            if is_error_text(trim(raw)) {
                r matches Err(CliError::NonZero { code: c, stderr: e }) && c == Some(0i32) && e@
                    == trim(raw)
            } else {
                r matches Ok(j) && j@ == output_json(raw) && (is_plain_text(raw) ==> array_strings(
                    j@,
                ) == nonblank_lines(raw))
            }
        }),
{
    if !success {
        return Err(CliError::NonZero { code, stderr: utf8_lossy(stderr) });
    }
    if stdout.len() == 0 {
        return Err(CliError::Empty);
    }
    let raw = utf8_lossy(stdout);
    let chars = chars_of(raw.as_str());
    let trimmed = trim_chars(chars.as_slice());
    let upper = chars_of("Error:");
    let lower = chars_of("error:");
    if starts_with(trimmed.as_slice(), upper.as_slice()) || starts_with(
        trimmed.as_slice(),
        lower.as_slice(),
    ) {
        return Err(CliError::NonZero { code: Some(0), stderr: string_from_chars(trimmed.as_slice()) });
    }
    if let Some(j) = Json::parse(raw.as_str()) {
        return Ok(j);
    }
    let first = string_from_chars(first_line(chars.as_slice()).as_slice());
    if let Some(j) = Json::parse(first.as_str()) {
        return Ok(j);
    }
    if let Some(start) = json_start_index(chars.as_slice()) {
        let tail = string_from_chars(slice_chars(chars.as_slice(), start, chars.len()).as_slice());
        assert(chars@.subrange(start as int, chars@.len() as int) =~= chars@.skip(start as int));
        if let Some(j) = Json::parse(tail.as_str()) {
            return Ok(j);
        }
    }
    let items = nonblank_lines_of(chars.as_slice());
    let text = json_string_array(items.as_slice());
    proof {
        lemma_strings_read_back(views(items@));
    }
    Ok(Json::from_text(text))
}

/// What a command whose output is taken as text gives: the command's failure, or its
/// standard output.
pub fn interpret_raw_output(success: bool, code: Option<i32>, stdout: &[u8], stderr: &[u8]) -> (r:
    Result<String, CliError>)
    ensures
        !success ==> (r matches Err(e) && failed_with(e, code, stderr@)),
        success ==> (r matches Ok(s) && s@ == utf8_lossy_of(stdout@)),
{
    if !success {
        return Err(CliError::NonZero { code, stderr: utf8_lossy(stderr) });
    }
    Ok(utf8_lossy(stdout))
}

/// How the Obsidian command line is called: the program, the vault (if one is chosen), and
/// how many seconds a call may take.
pub struct ObsidianCli {
    pub bin: String,
    pub vault: Option<String>,
    pub timeout_secs: u64,
}

/// The timeout, in seconds, where none is configured or the setting is not a number.
pub const DEFAULT_TIMEOUT_SECS: u64 = 30;

/// The setting of the timeout: its numeral where that parses, else the default.
pub open spec fn timeout_setting(timeout: Option<Seq<char>>) -> u64 {
    match timeout {
        Some(t) => match parse_u64(t) {
            Some(n) => n,
            None => DEFAULT_TIMEOUT_SECS,
        },
        None => DEFAULT_TIMEOUT_SECS,
    }
}

/// The extra argument that names the vault.
pub open spec fn vault_arg(v: Seq<char>) -> Seq<char> {
    "vault="@ + v
}

impl ObsidianCli {
    /// Settings from the values of `OBSIDIAN_VAULT`, `OBSIDIAN_BIN` and `OBSIDIAN_TIMEOUT`:
    /// the program defaults to `obsidian`, the timeout to thirty seconds.
    pub fn from_env(vault: Option<String>, bin: Option<String>, timeout: Option<String>) -> (r:
        ObsidianCli)
        ensures
            r.vault == vault,
            r.bin@ == (match bin {
                Some(b) => b@,
                None => "obsidian"@,
            }),
            r.timeout_secs == timeout_setting(opt_str(timeout)),
    {
        let bin = match bin {
            Some(b) => b,
            None => owned("obsidian"),
        };
        let timeout_secs = match &timeout {
            Some(t) => {
                let c = chars_of(t.as_str());
                match parse_u64_chars(c.as_slice()) {
                    Some(n) => n,
                    None => DEFAULT_TIMEOUT_SECS,
                }
            },
            None => DEFAULT_TIMEOUT_SECS,
        };
        ObsidianCli { bin, vault, timeout_secs }
    }

    /// The same settings with `vault` chosen.
    pub fn with_vault(self, vault: String) -> (r: ObsidianCli)
        ensures
            r.vault == Some(vault),
            r.bin == self.bin,
            r.timeout_secs == self.timeout_secs,
    {
        ObsidianCli { bin: self.bin, vault: Some(vault), timeout_secs: self.timeout_secs }
    }

    /// The name of the chosen vault, or `(auto)` where none is chosen.
    pub fn vault_name(&self) -> (r: &str)
        ensures
            r@ == (match self.vault {
                Some(v) => v@,
                None => "(auto)"@,
            }),
    {
        match &self.vault {
            Some(v) => v.as_str(),
            None => "(auto)",
        }
    }

    /// The arguments of a call: `args`, then the vault argument where a vault is chosen.
    pub fn command_args(&self, args: &[String]) -> (r: Vec<String>)
        ensures
            views(r@) == views(args@) + (match self.vault {
                Some(v) => seq![vault_arg(v@)],
                None => seq![],
            }),
    {
        let mut out: Vec<String> = Vec::new();
        let mut i: usize = 0;
        while i < args.len()
            invariant
                i <= args.len(),
                views(out@) == views(args@).take(i as int),
            decreases args.len() - i,
        {
            let ghost before = views(out@);
            out.push(args[i].clone());
            assert(views(out@) =~= before.push(args@[i as int]@));
            assert(views(args@).take(i + 1) =~= views(args@).take(i as int).push(args@[i as int]@));
            i = i + 1;
        }
        assert(views(args@).take(args.len() as int) =~= views(args@));
        match &self.vault {
            Some(v) => {
                let ghost before = views(out@);
                out.push(concat2("vault=", v.as_str()));
                assert(views(out@) =~= before + seq![vault_arg(v@)]);
            },
            None => {
                assert(views(out@) =~= views(args@) + Seq::<Seq<char>>::empty());
            },
        }
        out
    }

    /// The arguments that open the chosen vault, where one is chosen.
    pub fn vault_open_args(&self) -> (r: Option<Vec<String>>)
        ensures
            match self.vault {
                Some(v) => r matches Some(a) && views(a@) == seq!["vault:open"@, vault_arg(v@)],
                None => r is None,
            },
    {
        match &self.vault {
            Some(v) => {
                let mut a: Vec<String> = Vec::new();
                a.push(owned("vault:open"));
                a.push(concat2("vault=", v.as_str()));
                assert(views(a@) =~= seq!["vault:open"@, vault_arg(v@)]);
                Some(a)
            },
            None => None,
        }
    }
}

/// The view of an optional string.
pub open spec fn opt_str(o: Option<String>) -> Option<Seq<char>> {
    match o {
        Some(s) => Some(s@),
        None => None,
    }
}

// ---------------------------------------------------------------------------
// Checking at start-up that the command line answers
// ---------------------------------------------------------------------------

/// How many times the command line is probed before giving up.
pub const HEALTH_CHECK_ATTEMPTS: u32 = 3;

/// Seconds to wait between two probes.
pub const HEALTH_CHECK_RETRY_SECS: u64 = 10;

/// The arguments of a probe (no vault argument).
pub fn health_check_args() -> (r: Vec<String>)
    ensures
        views(r@) == seq!["version"@],
{
    let mut a: Vec<String> = Vec::new();
    a.push(owned("version"));
    assert(views(a@) =~= seq!["version"@]);
    a
}

/// What follows a probe.
pub enum StartupStep {
    /// The command line answered: open the vault, then serve.
    OpenVault,
    /// Wait, then probe again.
    Retry { delay_secs: u64, next_attempt: u32 },
    /// Give up with this message.
    Abort { message: String },
}

/// The message of giving up after the last probe failed with `e`.
pub open spec fn abort_message(e: CliError) -> Seq<char> {
    "CLI health check failed after "@ + decimal(HEALTH_CHECK_ATTEMPTS as nat) + " attempts: "@
        + e.message()
}

/// The decision after probe number `attempt` (counting from one) gave `probe`.
pub fn health_check_step(attempt: u32, probe: &Result<String, CliError>) -> (r: StartupStep)
    requires
        1 <= attempt <= HEALTH_CHECK_ATTEMPTS,
    ensures
        probe is Ok ==> r is OpenVault,
        probe is Err && attempt < HEALTH_CHECK_ATTEMPTS ==> (r matches StartupStep::Retry {
            delay_secs,
            next_attempt,
        } && delay_secs == HEALTH_CHECK_RETRY_SECS && next_attempt == attempt + 1),
        probe matches Err(e) ==> (attempt == HEALTH_CHECK_ATTEMPTS ==> (r matches StartupStep::Abort {
            message,
        } && message@ == abort_message(*e))),
{
    match probe {
        Ok(_) => StartupStep::OpenVault,
        Err(e) => {
            if attempt < HEALTH_CHECK_ATTEMPTS {
                StartupStep::Retry { delay_secs: HEALTH_CHECK_RETRY_SECS, next_attempt: attempt + 1 }
            } else {
                let n = u64_to_string(HEALTH_CHECK_ATTEMPTS as u64);
                let m = e.to_tool_error();
                let message = concat2(
                    concat3("CLI health check failed after ", n.as_str(), " attempts: ").as_str(),
                    m.as_str(),
                );
                assert(message@ =~= abort_message(*e));
                StartupStep::Abort { message }
            }
        },
    }
}

/// What came of opening the vault.
pub enum VaultOpenOutcome {
    Opened,
    /// The command line exits with code -1 where the vault is open already.
    AlreadyOpen,
    Failed,
}

/// What a call that opens the vault means.
pub fn vault_open_outcome(result: &Result<String, CliError>) -> (r: VaultOpenOutcome)
    ensures
        result is Ok ==> r is Opened,
        (result matches Err(CliError::NonZero { code: Some(c), .. }) && c == -1) ==> r is AlreadyOpen,
        result matches Err(e) ==> (!(e matches CliError::NonZero { code: Some(c), .. } && c == -1)
            ==> r is Failed),
{
    match result {
        Ok(_) => VaultOpenOutcome::Opened,
        Err(CliError::NonZero { code: Some(c), .. }) => {
            if *c == -1 {
                VaultOpenOutcome::AlreadyOpen
            } else {
                VaultOpenOutcome::Failed
            }
        },
        Err(_) => VaultOpenOutcome::Failed,
    }
}

} // verus!
