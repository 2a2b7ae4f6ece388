//! The closed taxonomy of fetch failures and the one-line diagnostic each one
//! rejects with.

use vstd::prelude::*;
use vstd::string::StringExecFns;
use crate::digits::dec_digits;
use crate::digits::u16_to_decimal;

verus! {

/// How one fetch failed. Every failure is terminal: no retry is attempted and
/// no partial result is returned.
#[derive(Debug, PartialEq, Eq)]
pub enum FetchError {
    /// The HTTP client could not be constructed; no network call was issued.
    ClientBuild { detail: String },
    /// The request could not be delivered (DNS, connect, TLS, timeout).
    Transport { detail: String },
    /// The server answered, but with a status outside the success range.
    /// `reason` carries the status line's reason phrase, possibly empty.
    Protocol { status: u16, reason: String },
    /// The body stream failed after a successful status.
    Stream { detail: String },
}

/// The diagnostic string for a failure: a fixed prefix naming the failed step,
/// followed by the underlying detail, or — for a protocol failure — by the
/// status code in decimal and the reason phrase when one is present.
pub open spec fn spec_message(e: FetchError) -> Seq<char> {
    match e {
        FetchError::ClientBuild { detail } => "Failed to build client: "@ + detail@,
        FetchError::Transport { detail } => "Request failed: "@ + detail@,
        FetchError::Protocol { status, reason } => if reason@.len() == 0 {
            "HTTP error: "@ + dec_digits(status as nat)
        } else {
            "HTTP error: "@ + dec_digits(status as nat) + " "@ + reason@
        },
        FetchError::Stream { detail } => "Failed to get bytes: "@ + detail@,
    }
}

impl FetchError {
    /// Renders the diagnostic that rejects the fetch. The same string is also
    /// handed to the logging sink by the driver, unchanged.
    pub fn message(&self) -> (m: String)
        ensures
            m@ == spec_message(*self),
    {
        match self {
            FetchError::ClientBuild { detail } => {
                let mut m = "Failed to build client: ".to_owned();
                m.append(detail.as_str());
                proof {
                    assert(m@ =~= spec_message(*self));
                }
                m
            },
            FetchError::Transport { detail } => {
                let mut m = "Request failed: ".to_owned();
                m.append(detail.as_str());
                proof {
                    assert(m@ =~= spec_message(*self));
                }
                m
            },
            FetchError::Protocol { status, reason } => {
                let mut m = "HTTP error: ".to_owned();
                let digits = u16_to_decimal(*status);
                m.append(digits.as_str());
                if !reason.as_str().is_empty() {
                    m.append(" ");
                    m.append(reason.as_str());
                }
                proof {
                    assert(m@ =~= spec_message(*self));
                }
                m
            },
            FetchError::Stream { detail } => {
                let mut m = "Failed to get bytes: ".to_owned();
                m.append(detail.as_str());
                proof {
                    assert(m@ =~= spec_message(*self));
                }
                m
            },
        }
    }
}

} // verus!
