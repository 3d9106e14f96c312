//! The decisions of a web-search plugin for grain.
//!
//! The plugin offers two tools. `web_search` asks one of four search providers, selected by the
//! `provider` argument:
//!
//! - `exa`, with the key in `EXA_API_KEY`;
//! - `tavily`, with the key in `TAVILY_API_KEY`;
//! - `searxng`, a self-hosted server at `SEARXNG_BASE_URL`;
//! - `anysearch`, with or without the key in `ANYSEARCH_API_KEY`.
//!
//! `web_fetch` gets a page and returns at most 16 KiB of its body.
//!
//! Nothing here talks to the host. `plugin` leads a tool call from step to step and says what
//! the host has to do in each; `laws` and the modules whose names end in `_laws` state what holds of
//! the library as a whole.

pub mod codec;
pub mod course_laws;
pub mod fetch;
pub mod http;
pub mod json;
pub mod laws;
pub mod plugin;
pub mod providers;
pub mod request_laws;
pub mod result_laws;
pub mod results;
pub mod search;
pub mod text;
pub mod text_laws;
pub mod tools;
pub mod urls;
pub mod view_laws;
