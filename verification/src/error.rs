//! The ways in which finding or recovering a search index fails.

use vstd::prelude::*;

verus! {

/// Why no search index came out.
#[derive(Debug, Clone, PartialEq, Eq)]
pub enum IndexError {
    /// The landing page of this package and version names no search index.
    NotFound { name: String, version: String },
    /// The base address could not be read as a URL, or the reference found on
    /// the page could not be joined to it.
    Url,
    /// The script holds no text between two single quotes.
    Format,
    /// A page could not be fetched; `reason` is what the transport said.
    Network { reason: String },
}

/// An error as contracts speak of it: the same cases, over plain text.
pub enum Failure {
    NotFound { name: Seq<char>, version: Seq<char> },
    Url,
    Format,
    Network { reason: Seq<char> },
}

impl View for IndexError {
    type V = Failure;

    open spec fn view(&self) -> Failure {
        match self {
            IndexError::NotFound { name, version } => Failure::NotFound {
                name: name@,
                version: version@,
            },
            IndexError::Url => Failure::Url,
            IndexError::Format => Failure::Format,
            IndexError::Network { reason } => Failure::Network { reason: reason@ },
        }
    }
}

/// A result as contracts speak of it.
pub open spec fn outcome(result: Result<String, IndexError>) -> Result<Seq<char>, Failure> {
    match result {
        Ok(text) => Ok(text@),
        Err(error) => Err(error@),
    }
}

impl Failure {
    /// The line that reports this failure.
    pub open spec fn message(self) -> Seq<char> {
        match self {
            Failure::NotFound { name, version } => "Cannot find search index file for "@ + name
                + "@"@ + version,
            Failure::Url => "Invalid URL of search index"@,
            Failure::Format => "Invalid format of JSON search index"@,
            Failure::Network { reason } => reason,
        }
    }
}

impl IndexError {
    /// The line that reports this error.
    pub fn message(&self) -> (line: String)
        ensures
            line@ == self@.message(),
    {
        match self {
            IndexError::NotFound { name, version } => {
                let mut line = String::from_str("Cannot find search index file for ");
                line.append(name.as_str());
                line.append("@");
                line.append(version.as_str());
                line
            },
            IndexError::Url => String::from_str("Invalid URL of search index"),
            IndexError::Format => String::from_str("Invalid format of JSON search index"),
            IndexError::Network { reason } => reason.clone(),
        }
    }
}

} // verus!
