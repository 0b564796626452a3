# obsidian_mcp

An MCP server for Obsidian vaults that drives the Obsidian command line (v1.12+).

The logic is a Verus library under `src/`:

- `text`: strings as character sequences (trimming, lines, words, decimal numerals, hex).
- `json`: JSON documents, held as the text they are read from, with the serde_json calls behind trusted wrappers.
- `cli`: settings of the command line, the arguments of a call, what its output means, and
  the start-up decisions (probing the command line, opening the vault).
- `js`: the JavaScript snippets that patch notes inside Obsidian; the JSON payload each embeds is
  proved to read back exactly inside the script's string literal.
- `auth`: API keys, constant-time comparison, and the decision on a request's bearer token.
- `server`: for each tool, prompt and resource, the command-line arguments and the result built
  from the command's output.
- `launch`: choice of transport, addresses, and the layout of the start-up banner.
- `types`: the result types that tools return.

`app/` holds what runs around it: argument parsing, processes, the MCP protocol handlers, HTTP,
the ngrok tunnel, and copies of the result types that carry serde derives.
