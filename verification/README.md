# otel_worker

The rules of an otel-worker, which stores and queries traces: of its API, of the
command line tool that talks to it, and of the MCP server that lets a language
model read its traces. The rules are verified with Verus.

- `src/` is the library. Each function states in its contract what it decides, and
  public proof functions named `law_..` state what holds across functions.
  - `data`, `text`: identifiers, and comparing, joining and splitting text
  - `config`: which directory an otel-worker works in
  - `spans`, `worker`: what the API answers about spans, and which requests need
    the token
  - `telemetry`: what is logged, and where traces are sent
  - `commands`, `xtask`: what each command of the command line comes to
  - `commands::mcp`: the sessions, messages, resources, tools and transports of the
    MCP server
- `app/` is the program around it: arguments, files, sockets and HTTP. It makes the
  calls that the library asks for and hands back what came of them.
- `tests/` runs the library on concrete values.

Calls into other crates stand behind small functions marked
`#[verifier::external_body]`. What they are taken to do is said above each of them.
