use obsidian_mcp::launch::{
    auth_banner, bind_address, choose_transport, http_endpoint, no_auth_notice, tunnel_domain,
    tunnel_forward_url, tunnel_local_address, tunnel_public_url, Transport,
};

#[test]
fn transport_choice() {
    assert!(matches!(choose_transport(true, true), Transport::Tunnel));
    assert!(matches!(choose_transport(false, true), Transport::Http));
    assert!(matches!(choose_transport(false, false), Transport::Stdio));
}

#[test]
fn addresses() {
    assert_eq!(bind_address("127.0.0.1", 8000), "127.0.0.1:8000");
    assert_eq!(http_endpoint("0.0.0.0", 9), "http://0.0.0.0:9/mcp");
    assert_eq!(tunnel_local_address(65535), "127.0.0.1:65535");
    assert_eq!(tunnel_forward_url(8000), "http://127.0.0.1:8000");
    assert_eq!(no_auth_notice("http://h:1/mcp"), "\n  MCP endpoint: http://h:1/mcp (NO AUTH)\n");
}

#[test]
fn tunnel_domain_and_url() {
    assert_eq!(tunnel_domain("me.ngrok.app", Some("env.app".to_string())).as_deref(), Some("me.ngrok.app"));
    assert_eq!(tunnel_domain("", Some("env.app".to_string())).as_deref(), Some("env.app"));
    assert_eq!(tunnel_domain("", None), None);
    assert_eq!(tunnel_public_url(&Some("me.ngrok.app".to_string())), "https://me.ngrok.app/mcp");
    assert_eq!(tunnel_public_url(&None), "(check ngrok dashboard for URL)/mcp");
}

#[test]
fn banner_box() {
    let lines = auth_banner("k3y", "http://127.0.0.1:8000/mcp");
    // widest row: "Auth header " + " : " + "Authorization: Bearer <api_key>" = 12 + 3 + 31
    let w = 46;
    let bar = "─".repeat(w + 3);
    assert_eq!(lines.len(), 8);
    assert_eq!(lines[0], "");
    assert_eq!(lines[1], format!("  ┌{bar}┐"));
    let row = |label: &str, value: &str| {
        let content = format!("{label} : {value}");
        format!("  │  {content}{} │", " ".repeat(w - content.len()))
    };
    assert_eq!(lines[2], row("MCP endpoint", "http://127.0.0.1:8000/mcp"));
    assert_eq!(lines[3], row("API key     ", "k3y"));
    assert_eq!(lines[4], format!("  │  {} │", " ".repeat(w)));
    assert_eq!(lines[5], row("Auth header ", "Authorization: Bearer <api_key>"));
    assert_eq!(lines[6], format!("  └{bar}┘"));
    assert_eq!(lines[7], "");
    let long = "x".repeat(80);
    let lines = auth_banner(&long, "e");
    assert_eq!(lines[3], format!("  │  API key      : {long} │"));
}
