//! The failures that a fetch-or-cache call can end in.
use vstd::prelude::*;
use vstd::string::StringExecFns;

verus! {

/// Declares `reqwest::Error`, carried unopened in `FetchError::Reqwest`.
#[verifier::external_type_specification]
#[verifier::external_body]
pub struct ExReqwestError(reqwest::Error);

/// Declares `std::io::Error`, carried unopened in `FetchError::IO`.
#[verifier::external_type_specification]
#[verifier::external_body]
pub struct ExIoError(std::io::Error);

/// Declares `serde_json::Error`, carried unopened in `FetchError::SerdeJson`.
#[verifier::external_type_specification]
#[verifier::external_body]
pub struct ExJsonError(serde_json::Error);

/// Every way in which a fetch-or-cache call can fail.
#[derive(Debug)]
pub enum FetchError {
    /// The request to the remote API failed.
    Reqwest(reqwest::Error),
    /// Reading, writing or listing the cache failed.
    IO(std::io::Error),
    /// A cached file or a response body is not a valid document.
    SerdeJson(serde_json::Error),
    /// A date text does not match its pattern.
    ChronoParse(chrono::ParseError),
    /// The offline fallback found nothing; says where it looked.
    NoValue(String),
    /// The operation has no implementation for this kind of request.
    Unsupported(String),
}

/// `text` starts with `prefix`.
pub open spec fn starts_with(text: Seq<char>, prefix: Seq<char>) -> bool {
    prefix.len() <= text.len() && text.subrange(0, prefix.len() as int) == prefix
}

impl FetchError {
    /// A message for the failure: a label of its kind, then the outside
    /// error's own text, or the description that the failure carries.
    pub fn message(&self) -> (r: String)
        ensures
            self is Reqwest ==> starts_with(r@, "transport: "@),
            self is IO ==> starts_with(r@, "storage: "@),
            self is SerdeJson ==> starts_with(r@, "serialization: "@),
            self is ChronoParse ==> starts_with(r@, "date parse: "@),
            self is NoValue ==> r@ == "no value could be obtained at "@ + self->NoValue_0@,
            self is Unsupported ==> r@ == "unsupported: "@ + self->Unsupported_0@,
    {
        let (label, detail) = match self {
            FetchError::Reqwest(e) => ("transport: ", e.to_string()),
            FetchError::IO(e) => ("storage: ", e.to_string()),
            FetchError::SerdeJson(e) => ("serialization: ", e.to_string()),
            FetchError::ChronoParse(e) => ("date parse: ", e.to_string()),
            FetchError::NoValue(place) => ("no value could be obtained at ", place.clone()),
            FetchError::Unsupported(what) => ("unsupported: ", what.clone()),
        };
        let r = String::from_str(label).concat(detail.as_str());
        proof {
            assert(r@.subrange(0, label@.len() as int) =~= label@);
        }
        r
    }
}

} // verus!
