use vstd::prelude::*;

use crate::errors::{Error, ErrorView};
use crate::model::{key_text, ApiKey};

verus! {

/// The text with leading and trailing whitespace removed, as `str::trim`
/// gives it.
pub uninterp spec fn trimmed(s: Seq<char>) -> Seq<char>;

/// Relies on `str::trim`: the result depends on the characters alone.
#[verifier::external_body]
fn trim_text(s: &str) -> (r: String)
    ensures
        r@ == trimmed(s@),
{
    s.trim().to_owned()
}

/// Chooses the API key: the value of the environment variable where it is
/// set, else the contents of the key file with surrounding whitespace
/// removed, else `MissingAuth`.
pub fn get_api_key(env_value: Option<String>, file_contents: Option<String>) -> (r: Result<
    ApiKey,
    Error,
>)
    ensures
        env_value is Some ==> r is Ok && key_text(r->Ok_0) == env_value->Some_0@,
        env_value is None && file_contents is Some ==> r is Ok && key_text(r->Ok_0) == trimmed(
            file_contents->Some_0@,
        ),
        env_value is None && file_contents is None ==> r is Err && r->Err_0@
            == ErrorView::MissingAuth,
{
    match env_value {
        Some(key) => Ok(ApiKey::new(key)),
        None => match file_contents {
            Some(contents) => Ok(ApiKey::new(trim_text(contents.as_str()))),
            None => Err(Error::MissingAuth),
        },
    }
}

} // verus!
