# rimap-server

The server core of an MCP server for IMAP mail: a client calls mail tools over
JSON-RPC, and the server decides what reaches the protocol stack, where a call
goes, what is recorded of it, and what the client is told.

The library in `src/` is verified with Verus. Every public function states in its
contract what it returns, over mathematical models of the data; public proof
functions named `law_*` state what holds across functions.

| module | what it holds |
| --- | --- |
| `text`, `json` | strings and JSON values, with `serde_json` behind a few trusted functions |
| `tool`, `error`, `account` | tool names and postures, errors and their codes, account names |
| `boot` | the account registry, the folder policy and tool matrix of an account, the record of the process's start |
| `mcp::wire_validator` | which lines of a client reach the protocol stack, and the watch over the two bridges |
| `mcp::tool_name`, `mcp::tool_catalog`, `mcp::server`, `mcp::resources` | how a call is named and planned, which tools and resources are listed |
| `mcp::dispatch`, `mcp::audit_envelope`, `mcp::call`, `mcp::drain` | one call from its start record to its answer, and how a shutdown waits for calls |
| `mcp::error`, `mcp::response`, `mcp::result_provenance` | what a client and the audit log are told of an outcome |
| `mcp::fuzz_oracle` | the properties that every line is held to |
| `serve`, `startup`, `cli` | the life of a session, and what the process decides and prints around it |

Functions and specifications marked as trusted name the function of `serde_json`,
`rmcp`, `governor`, `jsonschema`, `sha2`, `hex` or the standard library that they
stand for.

`app/` is the program around the library: the command line, the streams, the tasks,
and the mail side of the workspace (`rimap-*` crates), which it reaches through the
`Host` trait. `tests/` runs the library on concrete values.
