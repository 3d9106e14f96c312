//! The tools that the plugin offers.

use vstd::prelude::*;
use vstd::string::*;

verus! {

/// The JSON schema of the arguments of `web_search`.
pub const WEB_SEARCH_SCHEMA: &'static str = r#"{
  "type": "object",
  "properties": {
    "query": {
      "type": "string",
      "description": "Natural-language search query."
    },
    "provider": {
      "type": "string",
      "enum": ["exa", "tavily", "searxng", "anysearch"],
      "default": "exa",
      "description": "Search provider: exa (cloud, needs EXA_API_KEY), tavily (cloud, needs TAVILY_API_KEY), searxng (self-hosted, needs SEARXNG_BASE_URL), anysearch (cloud, optional ANYSEARCH_API_KEY)."
    },
    "num_results": {
      "type": "integer",
      "minimum": 1,
      "maximum": 20,
      "default": 5,
      "description": "How many results to return (1-20)."
    }
  },
  "required": ["query"]
}"#;

/// The JSON schema of the arguments of `web_fetch`.
pub const WEB_FETCH_SCHEMA: &'static str = r#"{
  "type": "object",
  "properties": {
    "url": {
      "type": "string",
      "description": "Absolute HTTP(S) URL to fetch."
    }
  },
  "required": ["url"]
}"#;

/// What `web_search` is said to do.
pub const WEB_SEARCH_DESCRIPTION: &'static str = "Search the live web via Exa / Tavily / SearXNG / AnySearch. Returns title / url / snippet for each hit. Set provider to 'exa' (needs EXA_API_KEY), 'tavily' (needs TAVILY_API_KEY), or 'searxng' (self-hosted, needs SEARXNG_BASE_URL), or 'anysearch' (cloud, optional ANYSEARCH_API_KEY). Defaults to 'exa' when provider is omitted.";

/// What `web_fetch` is said to do.
pub const WEB_FETCH_DESCRIPTION: &'static str = "HTTP GET an arbitrary URL and return its body (truncated to 16 KiB for safety). Useful for following links returned by `web_search`.";

/// How the plugin introduces itself.
#[derive(Debug, PartialEq, Eq)]
pub struct PluginInfo {
    pub name: String,
    pub version: String,
}

/// The plugin's introduction, and the line that is logged for information when it is loaded.
#[derive(Debug, PartialEq, Eq)]
pub struct Introduction {
    pub line: String,
    pub info: PluginInfo,
}

/// A tool that the plugin offers.
#[derive(Debug, PartialEq, Eq)]
pub struct ToolDef {
    pub name: String,
    pub label: String,
    pub description: String,
    pub parameters_json: String,
}

/// What the offer of a tool holds.
pub struct ToolView {
    pub name: Seq<char>,
    pub label: Seq<char>,
    pub description: Seq<char>,
    pub parameters_json: Seq<char>,
}

impl View for ToolDef {
    type V = ToolView;

    open spec fn view(&self) -> ToolView {
        ToolView {
            name: self.name@,
            label: self.label@,
            description: self.description@,
            parameters_json: self.parameters_json@,
        }
    }
}

/// The tools on offer.
pub open spec fn tools() -> Seq<ToolView> {
    seq![
        ToolView {
            name: "web_search"@,
            label: "Web Search"@,
            description: WEB_SEARCH_DESCRIPTION@,
            parameters_json: WEB_SEARCH_SCHEMA@,
        },
        ToolView {
            name: "web_fetch"@,
            label: "Fetch URL"@,
            description: WEB_FETCH_DESCRIPTION@,
            parameters_json: WEB_FETCH_SCHEMA@,
        },
    ]
}

/// Introduces the plugin, which never fails.
pub fn init() -> (loaded: Result<Introduction, String>)
    ensures
        loaded matches Ok(loaded) && loaded.line@ == "web-search plugin loaded"@
            && loaded.info.name@ == "web-search"@ && loaded.info.version@ == "0.0.1-beta1"@,
{
    let info = PluginInfo {
        name: "web-search".to_string(),
        version: "0.0.1-beta1".to_string(),
    };
    Ok(Introduction { line: "web-search plugin loaded".to_string(), info })
}

/// Lists the tools on offer.
pub fn list_tools() -> (offered: Vec<ToolDef>)
    ensures
        offered@.map_values(|tool: ToolDef| tool@) == tools(),
{
    let offered = vec![
        ToolDef {
            name: "web_search".to_string(),
            label: "Web Search".to_string(),
            description: WEB_SEARCH_DESCRIPTION.to_string(),
            parameters_json: WEB_SEARCH_SCHEMA.to_string(),
        },
        ToolDef {
            name: "web_fetch".to_string(),
            label: "Fetch URL".to_string(),
            description: WEB_FETCH_DESCRIPTION.to_string(),
            parameters_json: WEB_FETCH_SCHEMA.to_string(),
        },
    ];
    assert(offered@.map_values(|tool: ToolDef| tool@) =~= tools());
    offered
}

} // verus!
