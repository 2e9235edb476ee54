//! The pipeline's error taxonomy. Every component surfaces its failure
//! immediately; none retries. The caller's polling loop decides what a failed
//! tick means.

use vstd::prelude::*;

verus! {

/// Why a pipeline run failed.
#[derive(Debug)]
pub enum Error {
    /// Authentication did not redirect to the expected post-login location.
    JWLoginFailed,
    /// A grade payload parsed but failed the all-or-nothing extraction.
    GradeMalformed,
    /// A network-level failure, carried as the transport's own description;
    /// the driver that performs the requests constructs this variant.
    ReqwestError(String),
}

impl Error {
    /// The human-readable description of this error.
    pub open spec fn spec_message(&self) -> Seq<char> {
        match self {
            Error::JWLoginFailed => "Jiaowu login failed"@,
            Error::GradeMalformed => "Grade is malformed"@,
            Error::ReqwestError(s) => "ReqwestError: "@ + s@,
        }
    }

    /// Render the error for a log line or a notification body.
    pub fn message(&self) -> (r: String)
        ensures
            r@ == self.spec_message(),
    {
        match self {
            Error::JWLoginFailed => "Jiaowu login failed".to_owned(),
            Error::GradeMalformed => "Grade is malformed".to_owned(),
            Error::ReqwestError(s) => {
                let mut out = "ReqwestError: ".to_owned();
                out.append(s.as_str());
                out
            },
        }
    }
}

} // verus!
