# web_tools

A bridge that answers one `web_search` or `web_fetch` tool call read as JSON
on stdin. It asks the Parallel search service first; when that fails it falls
back on Ollama's web API, query by query or url by url, and prints the results
as JSON.

- `src/` is the verified library: the error type, the records, the
  conversions into the format handed back to the caller, the choice of tool,
  the request envelope, and the fallback plans (`SearchSession`,
  `FetchSession`) with their laws.
- `app/` reads stdin, parses and prints JSON (serde), and makes the HTTP
  calls (reqwest); it drives the sessions of the library.
- `tests/` exercises the library on concrete values.
