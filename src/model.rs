use vstd::prelude::*;

verus! {

/// The owner of a repository on the code-hosting service.
#[derive(Debug, Clone, PartialEq, Eq)]
pub struct Owner {
    pub login: String,
}

/// A repository, as the repository search returns it.
#[derive(Debug, Clone, PartialEq, Eq)]
pub struct Repository {
    pub name: String,
    pub owner: Owner,
}

/// The mathematical value of a [`Repository`].
pub struct RepositoryView {
    pub name: Seq<char>,
    pub owner_login: Seq<char>,
}

impl View for Repository {
    type V = RepositoryView;

    open spec fn view(&self) -> RepositoryView {
        RepositoryView { name: self.name@, owner_login: self.owner.login@ }
    }
}

/// One contributor of a repository with the number of contributions made.
#[derive(Debug, Clone, PartialEq, Eq)]
pub struct Contributor {
    pub login: String,
    pub contributions: u64,
}

/// The mathematical value of a [`Contributor`].
pub struct ContributorView {
    pub login: Seq<char>,
    pub contributions: nat,
}

impl View for Contributor {
    type V = ContributorView;

    open spec fn view(&self) -> ContributorView {
        ContributorView { login: self.login@, contributions: self.contributions as nat }
    }
}

/// The lead contributor of one repository and that contributor's share.
///
/// The share is the exact ratio `lead_contributions / total_contributions`.
/// A summary made by `summarize` is well formed: the total is positive and
/// the lead's count is positive and at most the total.
#[derive(Debug, Clone, PartialEq, Eq)]
pub struct RepositorySummary {
    pub repo_name: String,
    pub lead_contributor: String,
    pub lead_contributions: u64,
    pub total_contributions: u128,
}

/// The mathematical value of a [`RepositorySummary`].
pub struct SummaryView {
    pub repo_name: Seq<char>,
    pub lead_contributor: Seq<char>,
    pub lead_contributions: nat,
    pub total_contributions: nat,
}

impl View for RepositorySummary {
    type V = SummaryView;

    open spec fn view(&self) -> SummaryView {
        SummaryView {
            repo_name: self.repo_name@,
            lead_contributor: self.lead_contributor@,
            lead_contributions: self.lead_contributions as nat,
            total_contributions: self.total_contributions as nat,
        }
    }
}

impl SummaryView {
    /// The share is a ratio in (0, 1].
    pub open spec fn wf(self) -> bool {
        0 < self.lead_contributions <= self.total_contributions
    }
}

/// A repository search: the language and how many repositories to return.
#[derive(Debug, Clone, PartialEq, Eq)]
pub struct Query {
    pub limit: u32,
    pub language: String,
}

/// The text of an API key.
pub uninterp spec fn key_text(key: ApiKey) -> Seq<char>;

/// An API key for the code-hosting service, held in `secrecy::Secret`, whose
/// `Debug` output is a redaction marker and never the key. Verus cannot
/// declare `secrecy::Secret` (its parameter is bound by the outside trait
/// `Zeroize`), so the key is kept behind this opaque struct.
#[verifier::external_body]
#[derive(Debug)]
pub struct ApiKey {
    secret: secrecy::Secret<String>,
}

impl ApiKey {
    /// Relies on `secrecy::Secret::new`, which keeps the text as it is.
    #[verifier::external_body]
    pub fn new(text: String) -> (r: ApiKey)
        ensures
            key_text(r) == text@,
    {
        ApiKey { secret: secrecy::Secret::new(text) }
    }

    /// Relies on `secrecy::ExposeSecret::expose_secret`, which hands back the
    /// text that `Secret::new` was given.
    #[verifier::external_body]
    pub fn expose_secret(&self) -> (r: &String)
        ensures
            r@ == key_text(*self),
    {
        secrecy::ExposeSecret::expose_secret(&self.secret)
    }
}

} // verus!
