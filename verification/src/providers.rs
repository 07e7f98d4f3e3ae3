//! The LLM providers the agent can talk to, with their configuration names,
//! API key variables and default endpoints.
use vstd::prelude::*;
use crate::text::str_eq;

verus! {

/// An LLM provider, in the order the setup wizard lists them.
#[derive(Debug, Clone, Copy, PartialEq, Eq, Structural)]
pub enum Providers {
    Openrouter,
    Local,
    Groq,
    Cerebras,
    GoogleAIStudio,
}

/// Every provider, in listing order.
pub open spec fn all_providers() -> Seq<Providers> {
    seq![
        Providers::Openrouter,
        Providers::Local,
        Providers::Groq,
        Providers::Cerebras,
        Providers::GoogleAIStudio,
    ]
}

impl Providers {
    /// The configuration name of the provider.
    pub open spec fn spec_name(self) -> Seq<char> {
        match self {
            Providers::Openrouter => "openrouter"@,
            Providers::Local => "local"@,
            Providers::Groq => "groq"@,
            Providers::Cerebras => "cerebras"@,
            Providers::GoogleAIStudio => "google"@,
        }
    }

    /// The position of the provider in listing order.
    pub open spec fn spec_index(self) -> nat {
        match self {
            Providers::Openrouter => 0,
            Providers::Local => 1,
            Providers::Groq => 2,
            Providers::Cerebras => 3,
            Providers::GoogleAIStudio => 4,
        }
    }

    /// The environment variable holding the provider's API key, if it needs one.
    pub open spec fn spec_api_key_name(self) -> Option<Seq<char>> {
        match self {
            Providers::Openrouter => Some("OPENROUTER_API_KEY"@),
            Providers::Local => None,
            Providers::Groq => Some("GROQ_API_KEY"@),
            Providers::Cerebras => Some("CEREBRAS_API_KEY"@),
            Providers::GoogleAIStudio => Some("GOOGLE_AI_STUDIO_API_KEY"@),
        }
    }

    /// The default API base URL of the provider; a local server has none.
    pub open spec fn spec_base_url(self) -> Option<Seq<char>> {
        match self {
            Providers::Openrouter => Some("https://openrouter.ai/api/v1"@),
            Providers::Local => None,
            Providers::Groq => Some("https://api.groq.com/openai/v1"@),
            Providers::Cerebras => Some("https://api.cerebras.ai/v1"@),
            Providers::GoogleAIStudio => Some(
                "https://generativelanguage.googleapis.com/v1beta/openai/"@,
            ),
        }
    }

    /// The human readable title of the provider.
    pub open spec fn spec_title(self) -> Seq<char> {
        match self {
            Providers::Openrouter => "Openrouter.ai"@,
            Providers::Local => "Local LLM (Ollama, LMStudio, llama.cpp etc.)"@,
            Providers::Groq => "Groq"@,
            Providers::Cerebras => "Cerebras.ai"@,
            Providers::GoogleAIStudio => "Google AI Studio"@,
        }
    }

    /// Every provider, in listing order.
    pub fn all() -> (r: Vec<Providers>)
        ensures
            r@ == all_providers(),
    {
        let r = vec![
            Providers::Openrouter,
            Providers::Local,
            Providers::Groq,
            Providers::Cerebras,
            Providers::GoogleAIStudio,
        ];
        assert(r@ =~= all_providers());
        r
    }

    /// The provider whose configuration name is `name`, if any.
    pub open spec fn spec_from_name(name: Seq<char>) -> Option<Providers> {
        if name == "openrouter"@ {
            Some(Providers::Openrouter)
        } else if name == "local"@ {
            Some(Providers::Local)
        } else if name == "groq"@ {
            Some(Providers::Groq)
        } else if name == "cerebras"@ {
            Some(Providers::Cerebras)
        } else if name == "google"@ {
            Some(Providers::GoogleAIStudio)
        } else {
            None
        }
    }

    /// The provider whose configuration name is `name`, searched in listing order.
    pub fn from_name(name: &str) -> (r: Option<Self>)
        ensures
            r == Self::spec_from_name(name@),
    {
        let all = Self::all();
        let mut i: usize = 0;
        while i < all.len()
            invariant
                all@ == all_providers(),
                i <= all.len(),
                forall|j: int| 0 <= j < i ==> all_providers()[j].spec_name() != name@,
            decreases all.len() - i,
        {
            let p = all[i];
            if str_eq(p.name(), name) {
                proof {
                    lemma_from_name_prefix(name@, i as int);
                }
                return Some(p);
            }
            i = i + 1;
        }
        None
    }

    /// The position of the provider in listing order.
    pub fn index(&self) -> (r: usize)
        ensures
            r == self.spec_index(),
            all_providers()[r as int] == *self,
    {
        match self {
            Providers::Openrouter => 0,
            Providers::Local => 1,
            Providers::Groq => 2,
            Providers::Cerebras => 3,
            Providers::GoogleAIStudio => 4,
        }
    }

    /// The configuration name of the provider.
    pub fn name(&self) -> (r: &'static str)
        ensures
            r@ == self.spec_name(),
    {
        match self {
            Providers::Openrouter => "openrouter",
            Providers::Local => "local",
            Providers::Groq => "groq",
            Providers::Cerebras => "cerebras",
            Providers::GoogleAIStudio => "google",
        }
    }

    /// The environment variable holding the provider's API key, if it needs one.
    pub fn api_key_name(&self) -> (r: Option<&'static str>)
        ensures
            match r {
                Some(k) => self.spec_api_key_name() == Some(k@),
                None => self.spec_api_key_name() is None,
            },
    {
        match self {
            Providers::Openrouter => Some("OPENROUTER_API_KEY"),
            Providers::Local => None,
            Providers::Groq => Some("GROQ_API_KEY"),
            Providers::Cerebras => Some("CEREBRAS_API_KEY"),
            Providers::GoogleAIStudio => Some("GOOGLE_AI_STUDIO_API_KEY"),
        }
    }

    /// The default API base URL of the provider; a local server has none,
    /// which is an error.
    pub fn base_url(&self) -> (r: Result<&'static str, String>)
        ensures
            match r {
                Ok(u) => self.spec_base_url() == Some(u@),
                Err(m) => self.spec_base_url() is None && m@
                    == "Local provider doesn't have default base url"@,
            },
    {
        match self {
            Providers::Openrouter => Ok("https://openrouter.ai/api/v1"),
            Providers::Local => Err(String::from_str("Local provider doesn't have default base url")),
            Providers::Groq => Ok("https://api.groq.com/openai/v1"),
            Providers::Cerebras => Ok("https://api.cerebras.ai/v1"),
            Providers::GoogleAIStudio => Ok("https://generativelanguage.googleapis.com/v1beta/openai/"),
        }
    }

    /// The human readable title of the provider, as the setup wizard shows it.
    pub fn title(&self) -> (r: &'static str)
        ensures
            r@ == self.spec_title(),
    {
        match self {
            Providers::Openrouter => "Openrouter.ai",
            Providers::Local => "Local LLM (Ollama, LMStudio, llama.cpp etc.)",
            Providers::Groq => "Groq",
            Providers::Cerebras => "Cerebras.ai",
            Providers::GoogleAIStudio => "Google AI Studio",
        }
    }
}

/// No two providers share a configuration name.
pub proof fn lemma_provider_names_distinct(p: Providers, q: Providers)
    ensures
        p.spec_name() == q.spec_name() ==> p == q,
{
    reveal_strlit("openrouter");
    reveal_strlit("local");
    reveal_strlit("groq");
    reveal_strlit("cerebras");
    reveal_strlit("google");
    if p != q {
        assert(p.spec_name()[0] != q.spec_name()[0] || p.spec_name().len() != q.spec_name().len());
    }
}

/// The search in listing order agrees with the named lookup: when the first
/// `i` providers do not carry `name` and provider `i` does, it is the one found.
proof fn lemma_from_name_prefix(name: Seq<char>, i: int)
    requires
        0 <= i < 5,
        all_providers()[i].spec_name() == name,
        forall|j: int| 0 <= j < i ==> all_providers()[j].spec_name() != name,
    ensures
        Providers::spec_from_name(name) == Some(all_providers()[i]),
{
    let p = all_providers()[i];
    assert(all_providers()[0].spec_name() == "openrouter"@);
    assert(all_providers()[1].spec_name() == "local"@);
    assert(all_providers()[2].spec_name() == "groq"@);
    assert(all_providers()[3].spec_name() == "cerebras"@);
    assert(all_providers()[4].spec_name() == "google"@);
    lemma_provider_names_distinct(p, Providers::Openrouter);
    lemma_provider_names_distinct(p, Providers::Local);
    lemma_provider_names_distinct(p, Providers::Groq);
    lemma_provider_names_distinct(p, Providers::Cerebras);
}

/// Looking a provider up by its own configuration name finds it again.
pub proof fn law_from_name_of_name(p: Providers)
    ensures
        Providers::spec_from_name(p.spec_name()) == Some(p),
{
    lemma_provider_names_distinct(p, Providers::Openrouter);
    lemma_provider_names_distinct(p, Providers::Local);
    lemma_provider_names_distinct(p, Providers::Groq);
    lemma_provider_names_distinct(p, Providers::Cerebras);
}

/// The position of a provider finds it again in the listing.
pub proof fn law_index_of_provider(p: Providers)
    ensures
        0 <= p.spec_index() < all_providers().len(),
        all_providers()[p.spec_index() as int] == p,
{
}

/// A provider needs an API key exactly when it has a default base URL,
/// which is exactly when it is not a local server.
pub proof fn law_key_iff_remote(p: Providers)
    ensures
        (p.spec_api_key_name() is Some) == (p != Providers::Local),
        (p.spec_base_url() is Some) == (p != Providers::Local),
{
}

} // verus!
