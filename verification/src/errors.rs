//! Failure classification of a fetch attempt.
//!
//! Every way a retrieval can fail is one variant here, so that a caller can
//! tell transport failures, protocol failures and storage failures apart when
//! logging. Inside the fetch loop no failure is fatal: the loop logs the
//! message and carries on.

use vstd::prelude::*;

use crate::digits::dec_digits;
use crate::digits::decimal_string;

verus! {

/// Why a fetch attempt failed.
#[derive(Clone, Copy, Debug, PartialEq, Eq, Structural)]
pub enum FetchError {
    /// The request got no response: connect, timeout or transport failure.
    Network,
    /// A terminal response carried neither a redirect status nor 200.
    UnexpectedStatus(u16),
    /// A redirect status arrived without a `Location` header.
    RedirectMissingLocation,
    /// The redirect chain outran the fetcher's limit.
    TooManyRedirects,
    /// The destination folder or file could not be created or written.
    Storage,
}

/// The log line for each failure.
pub open spec fn spec_message(e: FetchError) -> Seq<char> {
    match e {
        FetchError::Network => "Network error while fetching"@,
        FetchError::UnexpectedStatus(code) => "Unexpected response status: "@ + dec_digits(
            code as nat,
        ),
        FetchError::RedirectMissingLocation => "Redirect without Location header"@,
        FetchError::TooManyRedirects => "Too many redirects"@,
        FetchError::Storage => "Could not write the fetched resource"@,
    }
}

impl FetchError {
    /// The line a caller logs for this failure.
    pub fn message(&self) -> (r: String)
        ensures
            r@ == spec_message(*self),
    {
        match self {
            FetchError::Network => String::from_str("Network error while fetching"),
            FetchError::UnexpectedStatus(code) => {
                let mut s = String::from_str("Unexpected response status: ");
                let num = decimal_string(*code as u64);
                s.append(num.as_str());
                proof {
                    assert(s@ =~= spec_message(*self));
                }
                s
            },
            FetchError::RedirectMissingLocation => String::from_str(
                "Redirect without Location header",
            ),
            FetchError::TooManyRedirects => String::from_str("Too many redirects"),
            FetchError::Storage => String::from_str("Could not write the fetched resource"),
        }
    }
}

} // verus!
