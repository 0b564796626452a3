//! What the program decides before serving: the transport, the addresses it binds and
//! announces, and the box it prints with the key and the endpoint.
use vstd::prelude::*;
use crate::text::{
    chars_of, concat2, concat3, concat5, decimal, owned, string_from_chars, u64_to_string, views,
};

verus! {

/// How the server is reached.
pub enum Transport {
    /// Standard input and output.
    Stdio,
    /// A local HTTP server.
    Http,
    /// A local HTTP server forwarded through an ngrok tunnel.
    Tunnel,
}

/// The transport: the tunnel where one is asked for, else HTTP where asked for, else stdio.
pub fn choose_transport(tunnel_requested: bool, http: bool) -> (r: Transport)
    ensures
        tunnel_requested ==> r is Tunnel,
        !tunnel_requested && http ==> r is Http,
        !tunnel_requested && !http ==> r is Stdio,
{
    if tunnel_requested {
        Transport::Tunnel
    } else if http {
        Transport::Http
    } else {
        Transport::Stdio
    }
}

/// The address the HTTP server binds: `<host>:<port>`.
pub fn bind_address(host: &str, port: u16) -> (r: String)
    ensures
        r@ == host@ + ":"@ + decimal(port as nat),
{
    let p = u64_to_string(port as u64);
    concat3(host, ":", p.as_str())
}

/// The endpoint of the local HTTP server: `http://<host>:<port>/mcp`.
pub fn http_endpoint(host: &str, port: u16) -> (r: String)
    ensures
        r@ == "http://"@ + host@ + ":"@ + decimal(port as nat) + "/mcp"@,
{
    let p = u64_to_string(port as u64);
    concat5("http://", host, ":", p.as_str(), "/mcp")
}

/// The local address behind a tunnel: `127.0.0.1:<port>`.
pub fn tunnel_local_address(port: u16) -> (r: String)
    ensures
        r@ == "127.0.0.1:"@ + decimal(port as nat),
{
    let p = u64_to_string(port as u64);
    concat2("127.0.0.1:", p.as_str())
}

/// The URL a tunnel forwards to: `http://127.0.0.1:<port>`.
pub fn tunnel_forward_url(port: u16) -> (r: String)
    ensures
        r@ == "http://127.0.0.1:"@ + decimal(port as nat),
{
    let p = u64_to_string(port as u64);
    concat2("http://127.0.0.1:", p.as_str())
}

/// The tunnel's domain: the one given on the command line where it is not empty, else the
/// value of `NGROK_DOMAIN` where set.
pub fn tunnel_domain(domain_arg: &str, env_domain: Option<String>) -> (r: Option<String>)
    ensures
        domain_arg@.len() > 0 ==> (r matches Some(d) && d@ == domain_arg@),
        domain_arg@.len() == 0 ==> r == env_domain,
{
    if chars_of(domain_arg).len() > 0 {
        Some(owned(domain_arg))
    } else {
        env_domain
    }
}

/// The public endpoint of a tunnel: `https://<domain>/mcp`, or a pointer to the dashboard
/// where ngrok chose the domain.
pub fn tunnel_public_url(domain: &Option<String>) -> (r: String)
    ensures
        r@ == (match domain {
            Some(d) => "https://"@ + d@ + "/mcp"@,
            None => "(check ngrok dashboard for URL)/mcp"@,
        }),
{
    match domain {
        Some(d) => concat3("https://", d.as_str(), "/mcp"),
        None => owned("(check ngrok dashboard for URL)/mcp"),
    }
}

/// The notice printed for an endpoint without authentication.
pub fn no_auth_notice(endpoint: &str) -> (r: String)
    ensures
        r@ == "\n  MCP endpoint: "@ + endpoint@ + " (NO AUTH)\n"@,
{
    concat3("\n  MCP endpoint: ", endpoint, " (NO AUTH)\n")
}

// ---------------------------------------------------------------------------
// The box with the key and the endpoint
// ---------------------------------------------------------------------------

/// The length of `s` in bytes, as `str::len` gives it.
pub open spec fn byte_len(s: Seq<char>) -> nat {
    vstd::utf8::encode_utf8(s).len()
}

/// The width of a row `<label> : <value>`, in bytes; an empty row has none.
pub open spec fn row_width(label: Seq<char>, value: Seq<char>) -> nat {
    if value.len() == 0 {
        0
    } else {
        byte_len(label) + 3 + byte_len(value)
    }
}

/// The rows of the box.
pub open spec fn banner_rows(api_key: Seq<char>, endpoint: Seq<char>) -> Seq<(Seq<char>, Seq<char>)> {
    seq![
        ("MCP endpoint"@, endpoint),
        ("API key     "@, api_key),
        (""@, ""@),
        ("Auth header "@, "Authorization: Bearer <api_key>"@),
    ]
}

/// The widest of the rows.
pub open spec fn max_row_width(rows: Seq<(Seq<char>, Seq<char>)>) -> nat
    decreases rows.len(),
{
    if rows.len() == 0 {
        0
    } else {
        let first = row_width(rows[0].0, rows[0].1);
        let rest = max_row_width(rows.drop_first());
        if first >= rest {
            first
        } else {
            rest
        }
    }
}

/// `n` copies of `c`.
pub open spec fn repeat(c: char, n: nat) -> Seq<char> {
    Seq::new(n, |i: int| c)
}

/// A row of the box, padded to the width `w`.
pub open spec fn banner_row(label: Seq<char>, value: Seq<char>, w: nat) -> Seq<char> {
    if value.len() == 0 {
        "  │  "@ + repeat(' ', w) + " │"@
    } else {
        "  │  "@ + label + " : "@ + value + repeat(' ', (w - row_width(label, value)) as nat) + " │"@
    }
}

/// The lines printed around the key and the endpoint: an empty line, the top of the box,
/// its rows, its bottom, and an empty line.
pub open spec fn banner(api_key: Seq<char>, endpoint: Seq<char>) -> Seq<Seq<char>> {
    let rows = banner_rows(api_key, endpoint);
    let w = max_row_width(rows);
    seq![
        Seq::<char>::empty(),
        "  ┌"@ + repeat('─', w + 3) + "┐"@,
        banner_row(rows[0].0, rows[0].1, w),
        banner_row(rows[1].0, rows[1].1, w),
        banner_row(rows[2].0, rows[2].1, w),
        banner_row(rows[3].0, rows[3].1, w),
        "  └"@ + repeat('─', w + 3) + "┘"@,
        Seq::<char>::empty(),
    ]
}

fn row_width_of(label: &str, value: &str) -> (r: u128)
    ensures
        r == row_width(label@, value@),
        r <= 2 * (usize::MAX as u128) + 3,
{
    if chars_of(value).len() == 0 {
        0
    } else {
        label.as_bytes().len() as u128 + 3 + value.as_bytes().len() as u128
    }
}

fn repeated(c: char, n: u128) -> (r: String)
    ensures
        r@ == repeat(c, n as nat),
{
    let mut v: Vec<char> = Vec::new();
    let mut k: u128 = 0;
    while k < n
        invariant
            k <= n,
            v@ == repeat(c, k as nat),
        decreases n - k,
    {
        v.push(c);
        k = k + 1;
        assert(v@ =~= repeat(c, k as nat));
    }
    string_from_chars(v.as_slice())
}

fn banner_line(label: &str, value: &str, w: u128) -> (r: String)
    requires
        w >= row_width(label@, value@),
    ensures
        r@ == banner_row(label@, value@, w as nat),
{
    if chars_of(value).len() == 0 {
        let spaces = repeated(' ', w);
        concat3("  │  ", spaces.as_str(), " │")
    } else {
        let pad = repeated(' ', w - row_width_of(label, value));
        let head = concat5("  │  ", label, " : ", value, pad.as_str());
        concat2(head.as_str(), " │")
    }
}

/// The lines that present the key and the endpoint in a box, padded to the widest row.
pub fn auth_banner(api_key: &str, endpoint: &str) -> (r: Vec<String>)
    ensures
        views(r@) == banner(api_key@, endpoint@),
{
    let auth_hint = "Authorization: Bearer <api_key>";
    let w0 = row_width_of("MCP endpoint", endpoint);
    let w1 = row_width_of("API key     ", api_key);
    let w2 = row_width_of("", "");
    let w3 = row_width_of("Auth header ", auth_hint);
    let ghost rows = banner_rows(api_key@, endpoint@);
    proof {
        assert(rows.drop_first().drop_first().drop_first().drop_first() =~= Seq::<(Seq<char>, Seq<char>)>::empty());
        assert(rows.drop_first()[0] == rows[1]);
        assert(rows.drop_first().drop_first()[0] == rows[2]);
        assert(rows.drop_first().drop_first().drop_first()[0] == rows[3]);
    }
    let m3 = w3;
    let m2 = if w2 >= m3 {
        w2
    } else {
        m3
    };
    let m1 = if w1 >= m2 {
        w1
    } else {
        m2
    };
    let w = if w0 >= m1 {
        w0
    } else {
        m1
    };
    assert(w == max_row_width(rows)) by {
        reveal_with_fuel(max_row_width, 5);
        assert(rows[0] == ("MCP endpoint"@, endpoint@));
        assert(rows[1] == ("API key     "@, api_key@));
        assert(rows[2] == (""@, ""@));
        assert(rows[3] == ("Auth header "@, "Authorization: Bearer <api_key>"@));
    }
    let bar = repeated('─', w + 3);
    let mut out: Vec<String> = Vec::new();
    out.push(String::new());
    out.push(concat3("  ┌", bar.as_str(), "┐"));
    out.push(banner_line("MCP endpoint", endpoint, w));
    out.push(banner_line("API key     ", api_key, w));
    out.push(banner_line("", "", w));
    out.push(banner_line("Auth header ", auth_hint, w));
    out.push(concat3("  └", bar.as_str(), "┘"));
    out.push(String::new());
    assert(views(out@) =~= banner(api_key@, endpoint@));
    out
}

} // verus!
