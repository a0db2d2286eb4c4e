//! Where the search engine is, and the key it asks for.

use vstd::prelude::*;

verus! {

/// The name of the environment variable that holds the search engine's base
/// URL.
pub const URL_VARIABLE: &'static str = "MEILI_URL";

/// The name of the environment variable that holds the search engine's key.
pub const KEY_VARIABLE: &'static str = "MEILI_MASTER_KEY";

/// The connection to the search engine: made once when the process starts,
/// and only read after that.
#[derive(Debug, PartialEq, Eq)]
pub struct MeiliConfig {
    pub url: String,
    pub api_key: String,
}

/// What a `MeiliConfig` holds, as text.
pub struct MeiliConfigView {
    pub url: Seq<char>,
    pub api_key: Seq<char>,
}

impl View for MeiliConfig {
    type V = MeiliConfigView;

    open spec fn view(&self) -> MeiliConfigView {
        MeiliConfigView { url: self.url@, api_key: self.api_key@ }
    }
}

impl Clone for MeiliConfig {
    fn clone(&self) -> (r: Self)
        ensures
            r@ == self@,
    {
        MeiliConfig { url: self.url.clone(), api_key: self.api_key.clone() }
    }
}

/// The address of the search over the index of posts, on the engine at
/// `base`.
pub open spec fn search_url(base: Seq<char>) -> Seq<char> {
    base + "/indexes/posts/search"@
}

/// The value of the `Authorization` header that presents `key`.
pub open spec fn bearer(key: Seq<char>) -> Seq<char> {
    "Bearer "@ + key
}

/// The complaint about the variable `name`, which could not be read because
/// of `cause`.
pub open spec fn not_set(name: Seq<char>, cause: Seq<char>) -> Seq<char> {
    "Environment variable "@ + name + " not set: "@ + cause
}

/// The configuration that two lookups in the environment give, each either
/// the variable's value or the cause of its failure: the complaint about the
/// URL if that is missing, else the one about the key.
pub open spec fn configured(
    url: Result<Seq<char>, Seq<char>>,
    api_key: Result<Seq<char>, Seq<char>>,
) -> Result<MeiliConfigView, Seq<char>> {
    match (url, api_key) {
        (Err(cause), _) => Err(not_set(URL_VARIABLE@, cause)),
        (Ok(_), Err(cause)) => Err(not_set(KEY_VARIABLE@, cause)),
        (Ok(url), Ok(api_key)) => Ok(MeiliConfigView { url, api_key }),
    }
}

/// The complaint about the variable `name`, which could not be read because
/// of `cause`.
pub fn missing_variable(name: &str, cause: &str) -> (r: String)
    ensures
        r@ == not_set(name@, cause@),
{
    let mut text = String::from_str("Environment variable ");
    text.append(name);
    text.append(" not set: ");
    text.append(cause);
    text
}

impl MeiliConfig {
    /// The connection to the engine at `url` with the key `api_key`.
    pub fn new(url: String, api_key: String) -> (r: MeiliConfig)
        ensures
            r@ == (MeiliConfigView { url: url@, api_key: api_key@ }),
    {
        MeiliConfig { url, api_key }
    }

    /// The configuration that two lookups in the environment give. Each is
    /// the variable's value, or the cause for which it could not be read.
    pub fn from_lookups(url: Result<String, String>, api_key: Result<String, String>) -> (r:
        Result<MeiliConfig, String>)
        ensures
            match configured(lookup_view(url), lookup_view(api_key)) {
                Ok(config) => r is Ok && r->Ok_0@ == config,
                Err(complaint) => r is Err && r->Err_0@ == complaint,
            },
    {
        match url {
            Err(cause) => Err(missing_variable(URL_VARIABLE, cause.as_str())),
            Ok(url) => match api_key {
                Err(cause) => Err(missing_variable(KEY_VARIABLE, cause.as_str())),
                Ok(api_key) => Ok(MeiliConfig { url, api_key }),
            },
        }
    }

    /// The address that searches are sent to.
    pub fn search_url(&self) -> (r: String)
        ensures
            r@ == search_url(self@.url),
    {
        let mut text = self.url.clone();
        text.append("/indexes/posts/search");
        text
    }

    /// The value of the `Authorization` header that goes with each search.
    pub fn authorization(&self) -> (r: String)
        ensures
            r@ == bearer(self@.api_key),
    {
        let mut text = String::from_str("Bearer ");
        text.append(self.api_key.as_str());
        text
    }
}

/// What a lookup gave, as text.
pub open spec fn lookup_view(lookup: Result<String, String>) -> Result<Seq<char>, Seq<char>> {
    match lookup {
        Ok(value) => Ok(value@),
        Err(cause) => Err(cause@),
    }
}

} // verus!
