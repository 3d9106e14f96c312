# web-search-plugin

A grain WASM plugin that adds two tools to the agent, with its decisions verified in
[Verus](https://github.com/verus-lang/verus).

| Tool         | What it does                                             |
|--------------|----------------------------------------------------------|
| `web_search` | Searches the web via Exa, Tavily, SearXNG or AnySearch   |
| `web_fetch`  | HTTP GET of a URL (body truncated to 16 KiB)             |

| Provider  | Environment variable | Notes               |
|-----------|----------------------|---------------------|
| Exa       | `EXA_API_KEY`        | Free tier available |
| Tavily    | `TAVILY_API_KEY`     | Cloud API           |
| SearXNG   | `SEARXNG_BASE_URL`   | Self-hosted         |
| AnySearch | `ANYSEARCH_API_KEY`  | Cloud, optional key |

## Layout

- `src/` is the library. It decides what is sent to whom, reads what comes back and words every
  error; each function carries a contract. `plugin` leads a tool call from step to step, `search`
  builds the requests, `results` and `fetch` read the replies, `text` and `urls` hold the work on
  texts, `json` and `codec` the documents. `laws` states what holds of the library as a whole.
- `codec` is where `serde_json` is called. What is taken from it without proof stands in the doc
  comments there. `text` takes two more things so, both of the standard library: `String::push`
  and the `Debug` of a `str`.
- `app/` is the component itself: bindings to the host, the loop that performs the steps, and the
  JSON encoding of arguments and outcomes.
- `tests/` runs the library on concrete values.
