use super::remote_repository_error::RemoteRepositoryError;
use vstd::prelude::*;

verus! {

/// A repository error together with the context it happened in.
#[derive(Clone, Debug, PartialEq, Eq)]
pub enum ServiceError {
    RepositoryErrors(RemoteRepositoryError, String),
}

impl ServiceError {
    /// `"Context:<context>, Error description:<error>\n"`.
    pub open spec fn spec_message(self) -> Seq<char> {
        match self {
            ServiceError::RepositoryErrors(err, context) => "Context:"@ + context@
                + ", Error description:"@ + err.spec_message() + "\n"@,
        }
    }

    /// The text of the error.
    pub fn message(&self) -> (r: String)
        ensures
            r@ == self.spec_message(),
    {
        match self {
            ServiceError::RepositoryErrors(err, context) => {
                let mut out = String::from_str("Context:");
                out.append(context.as_str());
                out.append(", Error description:");
                let description = err.message();
                out.append(description.as_str());
                out.append("\n");
                out
            },
        }
    }
}

} // verus!
