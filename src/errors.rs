use vstd::prelude::*;

verus! {

/// What can stop a run.
#[derive(Debug, Clone, PartialEq, Eq)]
pub enum Error {
    /// No API key was found in the environment or in the key file.
    MissingAuth,
    /// A request for repositories or contributors failed, or its response
    /// could not be decoded; the message describes the failure.
    Request(String),
    /// Writing the report failed; the message describes the failure.
    Io(String),
    /// The named repository has no contributor with a positive count.
    NoContributors(String),
}

/// The mathematical value of an [`Error`].
pub enum ErrorView {
    MissingAuth,
    Request(Seq<char>),
    Io(Seq<char>),
    NoContributors(Seq<char>),
}

impl View for Error {
    type V = ErrorView;

    open spec fn view(&self) -> ErrorView {
        match self {
            Error::MissingAuth => ErrorView::MissingAuth,
            Error::Request(m) => ErrorView::Request(m@),
            Error::Io(m) => ErrorView::Io(m@),
            Error::NoContributors(name) => ErrorView::NoContributors(name@),
        }
    }
}

/// The value of a result whose error is an [`Error`].
pub open spec fn result_view<T: View>(r: Result<T, Error>) -> Result<T::V, ErrorView> {
    match r {
        Ok(v) => Ok(v@),
        Err(e) => Err(e@),
    }
}

} // verus!
