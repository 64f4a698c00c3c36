# openclaw-miniflux-mcp

An MCP server for the Miniflux RSS reader, with its decisions proved in Verus.

- `src/` is the verified library: the settings (`config`), URL checking (`address`),
  the reading of tool parameters (`params`), the preparation of each tool call into a
  Miniflux request and the reply to what Miniflux answered (`server`), decimal rendering
  of numbers (`text`), and the library's laws (`laws`).
- `app/` is the program around it: command-line parsing, the MCP protocol over standard
  input and output, and the HTTP calls to Miniflux.
- `tests/` runs the library on concrete values.
