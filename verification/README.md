# h2m_search

Provider-agnostic web search — DuckDuckGo, Wikipedia, SearXNG, Brave and
Tavily — with every decision proved by Verus.

## Layout

- `src/` — the verified library.
  - `query`, `response`, `error`, `secret`, `time`, `retry` — the data model,
    the error taxonomy (and its JSON form) and the retry policy with its
    backoff schedule.
  - `text`, `encoding`, `urls` — character-level string helpers, the
    URL/form encoders, and URL parsing delegated to the `url` crate.
  - `providers/*` — for each provider, the requests it sends and what it
    makes of the answers. Multi-page searches (SearXNG, Brave, DuckDuckGo) are
    state machines: the caller sends the request of the current step and
    feeds the answer back. DuckDuckGo's HTML is queried with `scraper`.
  - `client` — provider selection from builder settings and environment.
  - `cli` — the decisions of the `h2m search` command line, and the input
    list of a conversion (command-line inputs and a URL file's lines).
- `app/` — the `h2m` binary: argument parsing, environment, HTTP transport
  with `reqwest`, the retry loop with `tokio`, JSON output with `serde`.
- `tests/` — tests of the library.
