# easyproject_mcp_server

The logic of an MCP server for EasyProject (Redmine): which API requests the
tools make, how responses and failures are read, how issue updates are merged,
how the issue enumerations are collected page by page, the report and
dashboard figures, the tool registry, and the texts the tools answer with.

- `src/` is the library, written in Verus; every function carries a contract
  that Verus proves. Calls into `chrono`, `base64`, `reqwest` (status codes)
  and `serde_json` stand behind small trusted wrappers whose doc comments say
  what is assumed of them.
- `tests/` runs the library on concrete values.
- `app/` is the ordinary Rust around it: configuration, the HTTP client with
  its cache (`moka`) and rate limiter (`governor`), the serde models, the MCP
  protocol types and the tool executors, which hand plain values to the
  library and send what it plans.
