# devin_mcp

An MCP (Model Context Protocol) server for creating and managing Devin AI
sessions, with its logic verified by Verus.

- `src/devin_client.rs`: the records of the Devin REST API, the request the
  client sends for each operation (method, address, key, query, JSON body),
  and how a reply's status is judged.
- `src/server.rs`: the four tools (`create_session`, `get_session`,
  `list_sessions`, `send_message`): the request each one makes and the text or
  error it answers with.
- `src/json.rs`: compact JSON text; string literals come from `serde_json`.
- `src/text.rs`: decimal numerals, joining, and the occurrence lemmas.
- `app/`: the program: HTTP with `reqwest`, JSON decoding with `serde`, and
  the MCP plumbing with `rmcp` over stdio.
