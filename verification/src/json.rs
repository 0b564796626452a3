//! JSON documents and the serde_json operations the library needs.
//!
//! A [`Json`] holds the text a document is read from. Everything
//! the library reads out of a document goes through one serde_json call each, behind the
//! trusted functions below; what the library does with the results is verified.
use vstd::prelude::*;
use crate::text::{hex_digit, join, owned, views};

verus! {

/// What serde_json writes (`Value::to_string`) for the value it parses from `text`, or
/// nothing where `serde_json::from_str::<Value>` refuses `text`.
pub uninterp spec fn json_canonical_of(text: Seq<char>) -> Option<Seq<char>>;

/// How serde_json writes the character `c` inside a string: a quote, a backslash and the
/// control characters below U+0020 are escaped (`\b`, `\t`, `\n`, `\f`, `\r`, else `\u00` and
/// two lower-case hexadecimal digits); every other character stands as it is.
pub open spec fn json_escape_char(c: char) -> Seq<char> {
    if c == '"' {
        seq!['\\', '"']
    } else if c == '\\' {
        seq!['\\', '\\']
    } else if c == '\x08' {
        seq!['\\', 'b']
    } else if c == '\t' {
        seq!['\\', 't']
    } else if c == '\n' {
        seq!['\\', 'n']
    } else if c == '\x0c' {
        seq!['\\', 'f']
    } else if c == '\r' {
        seq!['\\', 'r']
    } else if (c as int) < 0x20 {
        seq!['\\', 'u', '0', '0', hex_digit((c as int) / 16), hex_digit((c as int) % 16)]
    } else {
        seq![c]
    }
}

/// The escaped content of a JSON string holding `s`.
pub open spec fn json_escaped(s: Seq<char>) -> Seq<char>
    decreases s.len(),
{
    if s.len() == 0 {
        seq![]
    } else {
        json_escaped(s.drop_last()) + json_escape_char(s.last())
    }
}

/// A JSON string holding `s`, as serde_json writes it.
pub open spec fn json_quoted(s: Seq<char>) -> Seq<char> {
    "\""@ + json_escaped(s) + "\""@
}

/// What serde_json writes for an array of the strings `items` in compact form: the quoted
/// strings between brackets, separated by commas.
pub open spec fn json_of_strings(items: Seq<Seq<char>>) -> Seq<char> {
    "["@ + join(items.map_values(|s: Seq<char>| json_quoted(s)), ","@) + "]"@
}

/// For a JSON array, each element's string content, or nothing for an element that is not
/// a string; nothing at all where `text` is not a JSON array.
pub uninterp spec fn json_array_strings_of(text: Seq<char>) -> Option<Seq<Option<Seq<char>>>>;

/// For a JSON object, its members in serde_json's map order, each with the compact text of
/// its value; nothing where `text` is not a JSON object.
pub uninterp spec fn json_object_entries_of(text: Seq<char>) -> Option<Seq<(Seq<char>, Seq<char>)>>;

/// The content of a JSON string, or nothing where `text` is not a JSON string.
pub uninterp spec fn json_string_of(text: Seq<char>) -> Option<Seq<char>>;

/// What `serde_json::to_string_pretty` writes for the value parsed from `text`.
pub uninterp spec fn json_pretty_of(text: Seq<char>) -> Seq<char>;

/// What serde_json writes for an object with the given members, each a string or a number.
pub uninterp spec fn json_object_text_of(entries: Seq<(Seq<char>, PayloadView)>) -> Seq<char>;

/// A member value of a small JSON object that the library writes.
pub enum PayloadValue {
    Text(String),
    Number(u32),
}

/// The mathematical view of a [`PayloadValue`].
pub enum PayloadView {
    Text(Seq<char>),
    Number(u32),
}

impl View for PayloadValue {
    type V = PayloadView;

    open spec fn view(&self) -> PayloadView {
        match self {
            PayloadValue::Text(s) => PayloadView::Text(s@),
            PayloadValue::Number(n) => PayloadView::Number(*n),
        }
    }
}

/// The views of object members.
pub open spec fn entry_views(e: Seq<(String, PayloadValue)>) -> Seq<(Seq<char>, PayloadView)> {
    e.map_values(|p: (String, PayloadValue)| (p.0@, p.1@))
}

/// The views of optional strings.
pub open spec fn opt_views(v: Seq<Option<String>>) -> Seq<Option<Seq<char>>> {
    v.map_values(|o: Option<String>| opt_view(o))
}

/// The view of an optional string.
pub open spec fn opt_view(o: Option<String>) -> Option<Seq<char>> {
    match o {
        Some(s) => Some(s@),
        None => None,
    }
}

/// The views of pairs of strings.
pub open spec fn pair_views(v: Seq<(String, String)>) -> Seq<(Seq<char>, Seq<char>)> {
    v.map_values(|p: (String, String)| (p.0@, p.1@))
}

/// Parses `text` with `serde_json::from_str::<Value>` and writes the value back in compact form.
#[verifier::external_body]
pub fn canonical_json(text: &str) -> (r: Option<String>)
    ensures
        opt_view(r) == json_canonical_of(text@),
{
    match serde_json::from_str::<serde_json::Value>(text) {
        Ok(v) => Some(v.to_string()),
        Err(_) => None,
    }
}

/// Writes the strings as a JSON array (`Value::from(Vec<String>)`, then `to_string`), in the
/// form `json_of_strings` states. Reading that array back gives each string again.
#[verifier::external_body]
pub fn json_string_array(items: &[String]) -> (r: String)
    ensures
        r@ == json_of_strings(views(items@)),
        json_canonical_of(r@) == Some(r@),
        json_array_strings_of(r@) == Some(views(items@).map_values(|s: Seq<char>| Some(s))),
{
    serde_json::Value::from(items.to_vec()).to_string()
}

/// Parses `text` as an array (`serde_json::from_str::<Vec<Value>>`) and takes each element's
/// string content (`Value::String`) where it has one.
#[verifier::external_body]
pub fn json_array_strings(text: &str) -> (r: Option<Vec<Option<String>>>)
    ensures
        match r {
            Some(v) => json_array_strings_of(text@) == Some(opt_views(v@)),
            None => json_array_strings_of(text@) is None,
        },
{
    match serde_json::from_str::<Vec<serde_json::Value>>(text) {
        Ok(items) => Some(
            items.into_iter().map(|v| match v {
                serde_json::Value::String(s) => Some(s),
                _ => None,
            }).collect(),
        ),
        Err(_) => None,
    }
}

/// Parses `text` as an object (`serde_json::from_str::<Map<String, Value>>`) and lists its
/// members in the map's order, each value written back in compact form.
#[verifier::external_body]
pub fn json_object_entries(text: &str) -> (r: Option<Vec<(String, String)>>)
    ensures
        match r {
            Some(v) => json_object_entries_of(text@) == Some(pair_views(v@)),
            None => json_object_entries_of(text@) is None,
        },
{
    match serde_json::from_str::<serde_json::Map<String, serde_json::Value>>(text) {
        Ok(m) => Some(m.into_iter().map(|(k, v)| (k, v.to_string())).collect()),
        Err(_) => None,
    }
}

/// Parses `text` as a JSON string (`serde_json::from_str::<String>`).
#[verifier::external_body]
pub fn json_string(text: &str) -> (r: Option<String>)
    ensures
        opt_view(r) == json_string_of(text@),
{
    serde_json::from_str::<String>(text).ok()
}

/// Writes the value parsed from `text` with `serde_json::to_string_pretty`.
#[verifier::external_body]
pub fn json_pretty(text: &str) -> (r: String)
    ensures
        r@ == json_pretty_of(text@),
{
    match serde_json::from_str::<serde_json::Value>(text) {
        Ok(v) => serde_json::to_string_pretty(&v).unwrap_or_default(),
        Err(_) => String::new(),
    }
}

/// Writes an object with the given members (collected into a `serde_json::Map`) in compact
/// form. The compact writer puts no whitespace between tokens and escapes every control
/// character inside strings, so the text holds no line break.
#[verifier::external_body]
pub fn json_object_text(entries: &[(String, PayloadValue)]) -> (r: String)
    ensures
        r@ == json_object_text_of(entry_views(entries@)),
        !r@.contains('\n'),
        !r@.contains('\r'),
{
    let map: serde_json::Map<String, serde_json::Value> = entries.iter().map(|(k, v)| (k.clone(), match v {
        PayloadValue::Text(s) => serde_json::Value::from(s.clone()),
        PayloadValue::Number(n) => serde_json::Value::from(*n),
    })).collect();
    serde_json::Value::Object(map).to_string()
}

/// A JSON document, held as the text it is read from: text that serde_json parses. Each
/// reading of the document parses that text once, so it sees the value serde_json gives for
/// it, numbers included, exactly.
pub struct Json {
    text: String,
}

impl View for Json {
    type V = Seq<char>;

    closed spec fn view(&self) -> Seq<char> {
        self.text@
    }
}

impl Json {
    /// The text parses as JSON.
    #[verifier::type_invariant]
    spec fn parses(self) -> bool {
        json_canonical_of(self.text@) is Some
    }

    /// A document from text that serde_json parses.
    pub(crate) fn from_text(text: String) -> (r: Json)
        requires
            json_canonical_of(text@) is Some,
        ensures
            r@ == text@,
    {
        Json { text }
    }

    /// The text the document is read from.
    pub fn as_str(&self) -> (r: &str)
        ensures
            r@ == self@,
    {
        self.text.as_str()
    }

    /// The document `[]`.
    pub fn empty_array() -> (r: Json)
        ensures
            r@ == json_of_strings(Seq::empty()),
    {
        let items: Vec<String> = Vec::new();
        assert(views(items@) =~= Seq::<Seq<char>>::empty());
        Json { text: json_string_array(items.as_slice()) }
    }

    /// Reads `text` as JSON, where serde_json parses it.
    pub fn parse(text: &str) -> (r: Option<Json>)
        ensures
            match r {
                Some(j) => j@ == text@ && json_canonical_of(text@) is Some,
                None => json_canonical_of(text@) is None,
            },
    {
        match canonical_json(text) {
            Some(_) => Some(Json { text: owned(text) }),
            None => None,
        }
    }

    /// The document written in compact form (`serde_json::to_string` of the parsed value).
    pub fn to_compact(&self) -> (r: String)
        ensures
            json_canonical_of(self@) == Some(r@),
    {
        proof {
            use_type_invariant(self);
        }
        match canonical_json(self.text.as_str()) {
            Some(t) => t,
            None => {
                proof {
                    assert(false);
                }
                String::new()
            },
        }
    }

    /// The document written with `serde_json::to_string_pretty`.
    pub fn to_pretty(&self) -> (r: String)
        ensures
            r@ == json_pretty_of(self@),
    {
        json_pretty(self.text.as_str())
    }
}

/// The strings among the elements of a JSON array; nothing for any other document.
pub open spec fn array_strings(j: Seq<char>) -> Seq<Seq<char>> {
    match json_array_strings_of(j) {
        Some(items) => items.filter_map(|o: Option<Seq<char>>| o),
        None => seq![],
    }
}

/// The string elements of an array document, in order; empty for any other document.
pub fn parse_json_array_as_strings(val: &Json) -> (r: Vec<String>)
    ensures
        views(r@) == array_strings(val@),
{
    match json_array_strings(val.as_str()) {
        None => Vec::new(),
        Some(items) => {
            let ghost f = |o: Option<Seq<char>>| o;
            let ghost all = opt_views(items@);
            let mut out: Vec<String> = Vec::new();
            let mut i: usize = 0;
            while i < items.len()
                invariant
                    i <= items.len(),
                    all == opt_views(items@),
                    f == (|o: Option<Seq<char>>| o),
                    views(out@) == all.take(i as int).filter_map(f),
                decreases items.len() - i,
            {
                assert(all.take(i + 1).drop_last() =~= all.take(i as int));
                assert(all.take(i + 1).last() == opt_view(items@[i as int]));
                match &items[i] {
                    Some(s) => {
                        let ghost before = views(out@);
                        out.push(s.clone());
                        assert(views(out@) =~= before + seq![s@]);
                    },
                    None => {},
                }
                i = i + 1;
            }
            assert(all.take(items.len() as int) =~= all);
            out
        },
    }
}

} // verus!
