//! The parameter store as the resolver sees it, and how a raw answer of the remote store is read.

use vstd::prelude::*;
use crate::error::StoreError;
use crate::error::StoreErrorView;
use vstd::string::StringExecFns;

verus! {

/// A blocking accessor to a key-value parameter store.
///
/// Nothing is promised of an answer: a remote store may change between two calls, and any call
/// may fail. What the resolver does with each answer is stated where it takes the answer.
pub trait ConfigStore {
    /// Asks the store for the value under `key`.
    fn get_parameter(&self, key: &str) -> Result<String, StoreError>;
}

/// What came back from one request for a single parameter by name.
#[derive(Debug, Clone, PartialEq, Eq)]
pub enum ParameterResponse {
    /// The store answered with a parameter, which may or may not carry a value.
    Parameter { value: Option<String> },
    /// The store answered that it holds no such parameter, or answered without one.
    NoParameter,
    /// The request did not complete: transport, authentication or throttling failed.
    Failed { detail: String },
}

/// A [`ParameterResponse`] as contracts speak of it.
pub enum ParameterResponseView {
    Parameter { value: Option<Seq<char>> },
    NoParameter,
    Failed { detail: Seq<char> },
}

impl View for ParameterResponse {
    type V = ParameterResponseView;

    open spec fn view(&self) -> ParameterResponseView {
        match *self {
            ParameterResponse::Parameter { value } => ParameterResponseView::Parameter {
                value: match value {
                    Some(text) => Some(text@),
                    None => None,
                },
            },
            ParameterResponse::NoParameter => ParameterResponseView::NoParameter,
            ParameterResponse::Failed { detail } => ParameterResponseView::Failed {
                detail: detail@,
            },
        }
    }
}

/// One answer of a store: the value, or why there is none.
pub type Reply = Result<Seq<char>, StoreErrorView>;

/// An answer as contracts speak of it.
pub open spec fn reply_view(reply: Result<String, StoreError>) -> Reply {
    match reply {
        Ok(value) => Ok(value@),
        Err(cause) => Err(cause@),
    }
}

/// How the answer to a request for `key` reads: a parameter with a value gives that value, an
/// empty one included; no parameter, or one without a value, means the key was not found; a
/// request that did not complete means the store is unavailable.
pub open spec fn read_response(key: Seq<char>, response: ParameterResponseView) -> Reply {
    match response {
        ParameterResponseView::Parameter { value: Some(text) } => Ok(text),
        ParameterResponseView::Parameter { value: None } => Err(
            StoreErrorView::KeyNotFound { key },
        ),
        ParameterResponseView::NoParameter => Err(StoreErrorView::KeyNotFound { key }),
        ParameterResponseView::Failed { detail } => Err(
            StoreErrorView::StoreUnavailable { detail },
        ),
    }
}

/// Reads the remote store's answer to a request for `key`.
pub fn interpret_response(key: &str, response: ParameterResponse) -> (reply: Result<
    String,
    StoreError,
>)
    ensures
        reply_view(reply) == read_response(key@, response@),
{
    match response {
        ParameterResponse::Parameter { value: Some(text) } => Ok(text),
        ParameterResponse::Parameter { value: None } => Err(
            StoreError::KeyNotFound { key: String::from_str(key) },
        ),
        ParameterResponse::NoParameter => Err(
            StoreError::KeyNotFound { key: String::from_str(key) },
        ),
        ParameterResponse::Failed { detail } => Err(StoreError::StoreUnavailable { detail }),
    }
}

} // verus!
