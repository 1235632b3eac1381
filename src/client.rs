use vstd::prelude::*;

use crate::model::{key_text, ApiKey, Query, Repository};
use crate::text::{append_decimal, decimal};

verus! {

/// The client of the code-hosting service's API, with the key it sends.
pub struct DefaultClient {
    api_key: ApiKey,
}

impl DefaultClient {
    /// The API key this client sends.
    pub closed spec fn key(&self) -> Seq<char> {
        key_text(self.api_key)
    }

    pub fn create(api_key: ApiKey) -> (r: Self)
        ensures
            r.key() == key_text(api_key),
    {
        DefaultClient { api_key }
    }

    pub fn api_key(&self) -> (r: &ApiKey)
        ensures
            key_text(*r) == self.key(),
    {
        &self.api_key
    }

    /// The parameters of a repository search: `q` asks for repositories in
    /// the query's language, most starred first, and `per_page` for as many
    /// as the query's limit, in decimal.
    pub fn make_repo_query_params(query: Query) -> (r: Vec<(String, String)>)
        ensures
            r@.len() == 2,
            r@[0].0@ == "q"@,
            r@[0].1@ == "language:"@ + query.language@ + " sort:stars"@,
            r@[1].0@ == "per_page"@,
            r@[1].1@ == decimal(query.limit as nat),
    {
        let mut search = String::from_str("language:");
        search.append(query.language.as_str());
        search.append(" sort:stars");
        let mut per_page = String::new();
        append_decimal(&mut per_page, query.limit as u64);
        let mut params: Vec<(String, String)> = Vec::new();
        params.push((String::from_str("q"), search));
        params.push((String::from_str("per_page"), per_page));
        params
    }

    /// The address of a repository's contributor list.
    pub fn get_contributors_url(repo: &Repository) -> (r: String)
        ensures
            r@ == "https://api.github.com/repos/"@ + repo.owner.login@ + "/"@ + repo.name@
                + "/contributors"@,
    {
        let mut url = String::from_str("https://api.github.com/repos/");
        url.append(repo.owner.login.as_str());
        url.append("/");
        url.append(repo.name.as_str());
        url.append("/contributors");
        url
    }
}

} // verus!
