//! The error raised by the dispatch traits.

use vstd::prelude::*;
use vstd::string::*;

verus! {

/// Error raised while dispatching a call to a module.
#[derive(Debug)]
pub enum Error {
    /// The named module failed; `error` holds the text of the underlying failure.
    DispatchError { module: &'static str, error: String },
    /// Any other failure, described by its text.
    Other(String),
}

impl Error {
    /// The human readable text of the error, as a sequence of characters.
    pub open spec fn text(self) -> Seq<char> {
        match self {
            Error::DispatchError { module, error } => "Module '"@ + module@
                + "' failed to dispatch with error: "@ + error@,
            Error::Other(error) => error@,
        }
    }

    /// Renders the error for a human reader.
    pub fn to_string(&self) -> (s: String)
        ensures
            s@ == self.text(),
    {
        match self {
            Error::DispatchError { module, error } => {
                let mut s = String::from_str("Module '");
                s.append(module);
                s.append("' failed to dispatch with error: ");
                s.append(error.as_str());
                s
            },
            Error::Other(error) => error.clone(),
        }
    }
}

} // verus!
