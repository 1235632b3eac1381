use vstd::prelude::*;

use crate::model::Query;

verus! {

/// The command line: how many repositories to search and in which language,
/// and where the API key file is, if anywhere.
#[derive(Debug, Clone, PartialEq, Eq)]
pub struct Args {
    pub project_count: u32,
    pub language: String,
    pub key_file: Option<String>,
}

impl From<Args> for Query {
    fn from(args: Args) -> (r: Query) {
        Query { limit: args.project_count, language: args.language }
    }
}

impl vstd::std_specs::convert::FromSpecImpl<Args> for Query {
    open spec fn obeys_from_spec() -> bool {
        true
    }

    open spec fn from_spec(v: Args) -> Query {
        Query { limit: v.project_count, language: v.language }
    }
}

} // verus!
