//! The search providers and how one is chosen.

use crate::course_laws::law_names_mean_providers;
use crate::text::{opt_view, same_text};
use vstd::prelude::*;
use vstd::string::*;

verus! {

/// A search provider.
#[derive(Clone, Copy, Debug, PartialEq, Eq, Structural)]
pub enum Provider {
    /// Exa, a cloud service that needs a key.
    Exa,
    /// Tavily, a cloud service that needs a key.
    Tavily,
    /// SearXNG, self-hosted.
    Searxng,
    /// AnySearch, a cloud service that also answers without a key.
    Anysearch,
}

impl Provider {
    /// The name under which the provider is chosen.
    pub open spec fn name_view(self) -> Seq<char> {
        match self {
            Provider::Exa => "exa"@,
            Provider::Tavily => "tavily"@,
            Provider::Searxng => "searxng"@,
            Provider::Anysearch => "anysearch"@,
        }
    }

    /// The environment variable that holds the provider's setting.
    pub open spec fn variable_view(self) -> Seq<char> {
        match self {
            Provider::Exa => "EXA_API_KEY"@,
            Provider::Tavily => "TAVILY_API_KEY"@,
            Provider::Searxng => "SEARXNG_BASE_URL"@,
            Provider::Anysearch => "ANYSEARCH_API_KEY"@,
        }
    }

    /// The name under which the provider is chosen.
    pub fn name(self) -> (name: String)
        ensures
            name@ == self.name_view(),
    {
        match self {
            Provider::Exa => "exa".to_string(),
            Provider::Tavily => "tavily".to_string(),
            Provider::Searxng => "searxng".to_string(),
            Provider::Anysearch => "anysearch".to_string(),
        }
    }

    /// The environment variable that holds the provider's setting.
    pub fn variable(self) -> (variable: String)
        ensures
            variable@ == self.variable_view(),
    {
        match self {
            Provider::Exa => "EXA_API_KEY".to_string(),
            Provider::Tavily => "TAVILY_API_KEY".to_string(),
            Provider::Searxng => "SEARXNG_BASE_URL".to_string(),
            Provider::Anysearch => "ANYSEARCH_API_KEY".to_string(),
        }
    }
}

/// The provider that a caller means: the named one, Exa where none is named, or the message
/// that refuses an unknown name.
pub open spec fn chosen(provider: Option<Seq<char>>) -> Result<Provider, Seq<char>> {
    let name = match provider {
        Some(name) => name,
        None => "exa"@,
    };
    if name == "exa"@ {
        Ok(Provider::Exa)
    } else if name == "tavily"@ {
        Ok(Provider::Tavily)
    } else if name == "searxng"@ {
        Ok(Provider::Searxng)
    } else if name == "anysearch"@ {
        Ok(Provider::Anysearch)
    } else {
        Err(
            "unknown provider '"@ + name + "'. Supported: exa, tavily, searxng, anysearch"@,
        )
    }
}

/// Chooses the provider that a caller means.
pub fn choose_provider(provider: &Option<String>) -> (found: Result<Provider, String>)
    ensures
        match found {
            Ok(found) => chosen(opt_view(*provider)) matches Ok(choice) && choice == found,
            Err(message) => chosen(opt_view(*provider)) matches Err(refusal) && refusal
                == message@,
        },
        provider is None ==> (found matches Ok(choice) && choice is Exa),
        provider matches Some(name) ==> {
            &&& (found matches Ok(choice) && choice is Exa) <==> name@ == "exa"@
            &&& (found matches Ok(choice) && choice is Tavily) <==> name@ == "tavily"@
            &&& (found matches Ok(choice) && choice is Searxng) <==> name@ == "searxng"@
            &&& (found matches Ok(choice) && choice is Anysearch) <==> name@ == "anysearch"@
        },
{
    proof {
        law_names_mean_providers("exa"@);
    }
    let name = match provider {
        Some(name) => name.as_str(),
        None => "exa",
    };
    if same_text(name, "exa") {
        Ok(Provider::Exa)
    } else if same_text(name, "tavily") {
        Ok(Provider::Tavily)
    } else if same_text(name, "searxng") {
        Ok(Provider::Searxng)
    } else if same_text(name, "anysearch") {
        Ok(Provider::Anysearch)
    } else {
        Err(
            "unknown provider '".to_string().concat(name).concat(
                "'. Supported: exa, tavily, searxng, anysearch",
            ),
        )
    }
}

} // verus!
