# gw3

`gw3` wraps the Guild Wars 2 official API v2 and the Guild Wars 2 Wiki read
API. It ships a library and one binary, `gw3`, for the command line and for
MCP clients (`gw3 mcp serve`).

## Layout

- `src/` is the library, written in Verus. Everything that decides something
  is there with a contract: path normalization and language validation
  (`gw2/path.rs`), the request model and its builders (`gw2/request.rs`),
  query pairs and URLs (`gw2/query.rs`), id chunking (`gw2/chunk.rs`), what a
  call sends and how chunked answers merge (`gw2/fetch.rs`), how statuses
  become errors (`gw2/response.rs`), the public endpoint registry and its
  local refusals (`gw2/public.rs`, `gw2/template.rs`, `gw2/operations.rs`),
  the Wiki requests (`wiki.rs`), the command-line decisions (`cli.rs`) and the
  MCP tool arguments (`mcp.rs`). `outside.rs` holds the trusted declarations
  of the `url` and `serde_json` items that the library calls.
- `app/` is the binary: argument parsing with clap, the HTTP transport with
  reqwest and tokio, the MCP server with rmcp, and printing.
- `tests/` exercises the library on concrete values.
