//! The JavaScript that the library has Obsidian evaluate to rewrite a file, with its
//! parameters passed as a JSON document inside a single-quoted string literal.
use vstd::prelude::*;
use crate::json::{PayloadValue, PayloadView, json_object_text, json_object_text_of, entry_views};
use crate::text::{chars_of, concat3, owned, string_from_chars};

verus! {

// ---------------------------------------------------------------------------
// Escaping for a single-quoted JavaScript string literal
// ---------------------------------------------------------------------------

/// `s` with each character `c` replaced by `with`.
pub open spec fn replace_char(s: Seq<char>, c: char, with: Seq<char>) -> Seq<char>
    decreases s.len(),
{
    if s.len() == 0 {
        seq![]
    } else {
        replace_char(s.drop_last(), c, with) + (if s.last() == c {
            with
        } else {
            seq![s.last()]
        })
    }
}

/// A backslash.
pub open spec fn bs() -> char {
    '\\'
}

/// The text placed between single quotes: backslashes doubled first, then each single
/// quote preceded by a backslash (`.replace('\\', "\\\\").replace('\'', "\\'")`).
pub open spec fn js_escape(s: Seq<char>) -> Seq<char> {
    replace_char(replace_char(s, bs(), seq![bs(), bs()]), '\'', seq![bs(), '\''])
}

/// `s` with each `c` replaced by `with`.
pub fn replace_chars(s: &[char], c: char, with: &[char]) -> (r: Vec<char>)
    ensures
        r@ == replace_char(s@, c, with@),
{
    let mut out: Vec<char> = Vec::new();
    let mut i: usize = 0;
    while i < s.len()
        invariant
            i <= s.len(),
            out@ == replace_char(s@.take(i as int), c, with@),
        decreases s.len() - i,
    {
        assert(s@.take(i + 1).drop_last() =~= s@.take(i as int));
        let ghost before = out@;
        if s[i] == c {
            let mut k: usize = 0;
            while k < with.len()
                invariant
                    k <= with.len(),
                    out@ == before + with@.take(k as int),
                decreases with.len() - k,
            {
                out.push(with[k]);
                k = k + 1;
                assert(out@ =~= before + with@.take(k as int));
            }
            assert(with@.take(with.len() as int) =~= with@);
        } else {
            out.push(s[i]);
            assert(out@ =~= before + seq![s@[i as int]]);
        }
        i = i + 1;
    }
    assert(s@.take(s.len() as int) =~= s@);
    out
}

/// The escaped form of `payload`, ready to stand between single quotes.
pub fn js_escape_text(payload: &str) -> (r: String)
    ensures
        r@ == js_escape(payload@),
{
    let p = chars_of(payload);
    let two_bs: Vec<char> = vec!['\\', '\\'];
    let bs_quote: Vec<char> = vec!['\\', '\''];
    assert(two_bs@ =~= seq![bs(), bs()]);
    assert(bs_quote@ =~= seq![bs(), '\'']);
    let once = replace_chars(p.as_slice(), '\\', two_bs.as_slice());
    let twice = replace_chars(once.as_slice(), '\'', bs_quote.as_slice());
    string_from_chars(twice.as_slice())
}

/// How JavaScript reads the body of a single-quoted string literal, for the escapes that
/// `js_escape` writes: `\\` stands for a backslash and `\'` for a quote; any other escape,
/// a lone quote (which would end the literal) or a raw line break is refused.
pub open spec fn js_literal_body(s: Seq<char>) -> Option<Seq<char>>
    decreases s.len(),
{
    if s.len() == 0 {
        Some(seq![])
    } else if s[0] == bs() {
        if s.len() >= 2 && (s[1] == bs() || s[1] == '\'') {
            match js_literal_body(s.skip(2)) {
                Some(rest) => Some(seq![s[1]] + rest),
                None => None,
            }
        } else {
            None
        }
    } else if s[0] == '\'' || s[0] == '\n' || s[0] == '\r' {
        None
    } else {
        match js_literal_body(s.drop_first()) {
            Some(rest) => Some(seq![s[0]] + rest),
            None => None,
        }
    }
}

/// What one character becomes in `js_escape`.
pub open spec fn escape_one(c: char) -> Seq<char> {
    if c == bs() {
        seq![bs(), bs()]
    } else if c == '\'' {
        seq![bs(), '\'']
    } else {
        seq![c]
    }
}

proof fn lemma_replace_char_add(a: Seq<char>, b: Seq<char>, c: char, with: Seq<char>)
    ensures
        replace_char(a + b, c, with) == replace_char(a, c, with) + replace_char(b, c, with),
    decreases b.len(),
{
    if b.len() == 0 {
        assert(a + b =~= a);
        assert(replace_char(b, c, with) =~= Seq::<char>::empty());
        assert(replace_char(a, c, with) + Seq::<char>::empty() =~= replace_char(a, c, with));
    } else {
        assert((a + b).drop_last() =~= a + b.drop_last());
        lemma_replace_char_add(a, b.drop_last(), c, with);
        let tail = if b.last() == c {
            with
        } else {
            seq![b.last()]
        };
        assert(replace_char(a, c, with) + replace_char(b.drop_last(), c, with) + tail
            =~= replace_char(a, c, with) + (replace_char(b.drop_last(), c, with) + tail));
    }
}

proof fn lemma_replace_single(x: char, c: char, with: Seq<char>)
    ensures
        replace_char(seq![x], c, with) == (if x == c {
            with
        } else {
            seq![x]
        }),
{
    let one = seq![x];
    assert(one.drop_last() =~= Seq::<char>::empty());
    assert(replace_char(Seq::<char>::empty(), c, with) =~= Seq::<char>::empty());
    assert(one.last() == x);
    let t = if x == c {
        with
    } else {
        seq![x]
    };
    assert(Seq::<char>::empty() + t =~= t);
}

proof fn lemma_js_escape_front(s: Seq<char>)
    requires
        s.len() > 0,
    ensures
        js_escape(s) == escape_one(s[0]) + js_escape(s.drop_first()),
{
    let head = seq![s[0]];
    assert(s =~= head + s.drop_first());
    lemma_replace_char_add(head, s.drop_first(), bs(), seq![bs(), bs()]);
    lemma_replace_single(s[0], bs(), seq![bs(), bs()]);
    let once_head = replace_char(head, bs(), seq![bs(), bs()]);
    let once_rest = replace_char(s.drop_first(), bs(), seq![bs(), bs()]);
    lemma_replace_char_add(once_head, once_rest, '\'', seq![bs(), '\'']);
    if s[0] == bs() {
        assert(once_head =~= seq![bs()] + seq![bs()]);
        lemma_replace_char_add(seq![bs()], seq![bs()], '\'', seq![bs(), '\'']);
        lemma_replace_single(bs(), '\'', seq![bs(), '\'']);
        assert(replace_char(once_head, '\'', seq![bs(), '\'']) =~= seq![bs(), bs()]);
    } else {
        lemma_replace_single(s[0], '\'', seq![bs(), '\'']);
    }
}

/// Escaping loses nothing: JavaScript reads the escaped text of any payload without raw line
/// breaks back as that payload, and no quote in it ends the literal early.
pub proof fn lemma_js_escape_reads_back(p: Seq<char>)
    requires
        !p.contains('\n'),
        !p.contains('\r'),
    ensures
        js_literal_body(js_escape(p)) == Some(p),
    decreases p.len(),
{
    if p.len() == 0 {
        assert(js_escape(p) =~= Seq::<char>::empty());
    } else {
        lemma_js_escape_front(p);
        let rest = p.drop_first();
        assert(!rest.contains('\n')) by {
            if rest.contains('\n') {
                let i = choose|i: int| 0 <= i < rest.len() && rest[i] == '\n';
                assert(p[i + 1] == '\n');
            }
        }
        assert(!rest.contains('\r')) by {
            if rest.contains('\r') {
                let i = choose|i: int| 0 <= i < rest.len() && rest[i] == '\r';
                assert(p[i + 1] == '\r');
            }
        }
        lemma_js_escape_reads_back(rest);
        let e = js_escape(p);
        let h = escape_one(p[0]);
        assert(p[0] != '\n' && p[0] != '\r') by {
            if p[0] == '\n' {
                assert(p.contains('\n'));
            }
            if p[0] == '\r' {
                assert(p.contains('\r'));
            }
        }
        if p[0] == bs() || p[0] == '\'' {
            assert(e.skip(2) =~= js_escape(rest));
        } else {
            assert(e.drop_first() =~= js_escape(rest));
        }
        assert(seq![p[0]] + rest =~= p);
    }
}

// ---------------------------------------------------------------------------
// The scripts
// ---------------------------------------------------------------------------

/// The members of a JSON object of strings, as the library writes them.
pub open spec fn text_entry(key: Seq<char>, value: Seq<char>) -> (Seq<char>, PayloadView) {
    (key, PayloadView::Text(value))
}

/// A string member.
fn text_member(key: &str, value: &str) -> (r: (String, PayloadValue))
    ensures
        r.0@ == key@,
        r.1@ == PayloadView::Text(value@),
{
    (owned(key), PayloadValue::Text(owned(value)))
}

/// The script that replaces the content of a file.
pub open spec fn modify_script(encoded: Seq<char>) -> Seq<char> {
    "(async()=>{const d=JSON.parse('"@ + encoded + "');const f=app.vault.getAbstractFileByPath(d.path);if(!f)throw new Error('File not found: '+d.path);await app.vault.modify(f,d.content);})()"@
}

/// The script that replaces the first match (`replace`) or every match (`replaceAll`) of a text.
pub open spec fn patch_script(encoded: Seq<char>, method: Seq<char>) -> Seq<char> {
    "(async()=>{const d=JSON.parse('"@ + encoded + "');const f=app.vault.getAbstractFileByPath(d.path);if(!f)throw new Error('File not found: '+d.path);let c=await app.vault.read(f);c=c."@ + method + "(d.find,d.replace);await app.vault.modify(f,c);})()"@
}

/// The script that replaces one line after checking what it holds.
pub open spec fn replace_line_script(encoded: Seq<char>) -> Seq<char> {
    "(async()=>{const d=JSON.parse('"@ + encoded + "');const f=app.vault.getAbstractFileByPath(d.path);if(!f)throw new Error('File not found: '+d.path);let c=await app.vault.read(f);const lines=c.split(/\\r?\\n/);const idx=d.line-1;if(!Number.isInteger(d.line)||d.line<1)throw new Error('Line number must be >= 1');if(idx>=lines.length)throw new Error('Line '+d.line+' out of range (file has '+lines.length+' lines)');if(lines[idx]!==d.expected)throw new Error('Line '+d.line+' conflict: expected \"'+d.expected+'\" but found \"'+lines[idx]+'\"');lines[idx]=d.replace;const eol=c.includes('\\r\\n')?'\\r\\n':'\\n';await app.vault.modify(f,lines.join(eol));})()"@
}

/// The parameters of a rewrite of the whole file.
pub open spec fn modify_payload(path: Seq<char>, content: Seq<char>) -> Seq<char> {
    json_object_text_of(seq![text_entry("path"@, path), text_entry("content"@, content)])
}

/// The parameters of a find-and-replace.
pub open spec fn patch_payload(path: Seq<char>, find: Seq<char>, replace: Seq<char>) -> Seq<char> {
    json_object_text_of(
        seq![text_entry("path"@, path), text_entry("find"@, find), text_entry("replace"@, replace)],
    )
}

/// The parameters of a replacement of one line.
pub open spec fn replace_line_payload(path: Seq<char>, line: u32, expected: Seq<char>, replace: Seq<char>) -> Seq<char> {
    json_object_text_of(
        seq![
            text_entry("path"@, path),
            ("line"@, PayloadView::Number(line)),
            text_entry("expected"@, expected),
            text_entry("replace"@, replace),
        ],
    )
}

/// The script that writes `content` as the whole content of the file at `path`. The payload
/// it embeds is read back by JavaScript exactly as serde_json wrote it.
pub fn eval_modify_js(path: &str, content: &str) -> (r: String)
    ensures
        r@ == modify_script(js_escape(modify_payload(path@, content@))),
        js_literal_body(js_escape(modify_payload(path@, content@))) == Some(modify_payload(path@, content@)),
{
    let mut entries: Vec<(String, PayloadValue)> = Vec::new();
    entries.push(text_member("path", path));
    entries.push(text_member("content", content));
    assert(entry_views(entries@) =~= seq![text_entry("path"@, path@), text_entry("content"@, content@)]);
    let payload = json_object_text(entries.as_slice());
    proof {
        lemma_js_escape_reads_back(payload@);
    }
    let encoded = js_escape_text(payload.as_str());
    concat3("(async()=>{const d=JSON.parse('", encoded.as_str(), "');const f=app.vault.getAbstractFileByPath(d.path);if(!f)throw new Error('File not found: '+d.path);await app.vault.modify(f,d.content);})()")
}

/// The method of the patch: every match, or the first.
pub open spec fn patch_method(replace_all: bool) -> Seq<char> {
    if replace_all {
        "replaceAll"@
    } else {
        "replace"@
    }
}

/// The script that replaces `find` with `replace` in the file at `path`: every match where
/// `replace_all` holds, else the first. The payload it embeds is read back by JavaScript
/// exactly as serde_json wrote it.
pub fn eval_patch_js(path: &str, find: &str, replace: &str, replace_all: bool) -> (r: String)
    ensures
        r@ == patch_script(js_escape(patch_payload(path@, find@, replace@)), patch_method(replace_all)),
        js_literal_body(js_escape(patch_payload(path@, find@, replace@))) == Some(patch_payload(path@, find@, replace@)),
{
    let mut entries: Vec<(String, PayloadValue)> = Vec::new();
    entries.push(text_member("path", path));
    entries.push(text_member("find", find));
    entries.push(text_member("replace", replace));
    assert(entry_views(entries@) =~= seq![text_entry("path"@, path@), text_entry("find"@, find@), text_entry("replace"@, replace@)]);
    let payload = json_object_text(entries.as_slice());
    proof {
        lemma_js_escape_reads_back(payload@);
    }
    let encoded = js_escape_text(payload.as_str());
    let method = if replace_all {
        "replaceAll"
    } else {
        "replace"
    };
    let mut r = concat3("(async()=>{const d=JSON.parse('", encoded.as_str(), "');const f=app.vault.getAbstractFileByPath(d.path);if(!f)throw new Error('File not found: '+d.path);let c=await app.vault.read(f);c=c.");
    r.append(method);
    r.append("(d.find,d.replace);await app.vault.modify(f,c);})()");
    r
}

/// The script that replaces line number `line` (from one) of the file at `path` with
/// `replace`, after checking that it reads `expected`. The payload it embeds is read back by
/// JavaScript exactly as serde_json wrote it.
pub fn eval_replace_line_js(path: &str, line: u32, expected: &str, replace: &str) -> (r: String)
    ensures
        r@ == replace_line_script(js_escape(replace_line_payload(path@, line, expected@, replace@))),
        js_literal_body(js_escape(replace_line_payload(path@, line, expected@, replace@))) == Some(
            replace_line_payload(path@, line, expected@, replace@),
        ),
{
    let mut entries: Vec<(String, PayloadValue)> = Vec::new();
    entries.push(text_member("path", path));
    entries.push((owned("line"), PayloadValue::Number(line)));
    entries.push(text_member("expected", expected));
    entries.push(text_member("replace", replace));
    assert(entry_views(entries@) =~= seq![
        text_entry("path"@, path@),
        ("line"@, PayloadView::Number(line)),
        text_entry("expected"@, expected@),
        text_entry("replace"@, replace@),
    ]);
    let payload = json_object_text(entries.as_slice());
    proof {
        lemma_js_escape_reads_back(payload@);
    }
    let encoded = js_escape_text(payload.as_str());
    concat3("(async()=>{const d=JSON.parse('", encoded.as_str(), "');const f=app.vault.getAbstractFileByPath(d.path);if(!f)throw new Error('File not found: '+d.path);let c=await app.vault.read(f);const lines=c.split(/\\r?\\n/);const idx=d.line-1;if(!Number.isInteger(d.line)||d.line<1)throw new Error('Line number must be >= 1');if(idx>=lines.length)throw new Error('Line '+d.line+' out of range (file has '+lines.length+' lines)');if(lines[idx]!==d.expected)throw new Error('Line '+d.line+' conflict: expected \"'+d.expected+'\" but found \"'+lines[idx]+'\"');lines[idx]=d.replace;const eol=c.includes('\\r\\n')?'\\r\\n':'\\n';await app.vault.modify(f,lines.join(eol));})()")
}

} // verus!
