//! The failures a caller can see, and the text each one is reported with.

use vstd::prelude::*;
use vstd::string::StringExecFns;

verus! {

/// Why the parameter store gave no value for a key.
#[derive(Debug, Clone, PartialEq, Eq)]
pub enum StoreError {
    /// The store has no parameter of that name, or the parameter carries no value.
    KeyNotFound { key: String },
    /// The store could not be asked: transport, authentication or throttling failed.
    StoreUnavailable { detail: String },
}

/// Why no record was produced.
#[derive(Debug, Clone, PartialEq, Eq)]
pub enum ResolutionError {
    /// The target is not a flat record of distinct, text-valued fields.
    UnsupportedShape,
    /// The store gave no value for one field; no later field was asked for.
    FieldResolutionFailed { field_name: String, cause: StoreError },
}

/// Why no store adapter was produced.
#[derive(Debug, Clone, PartialEq, Eq)]
pub struct AdapterInitError {
    pub detail: String,
}

/// A [`StoreError`] as contracts speak of it.
pub enum StoreErrorView {
    KeyNotFound { key: Seq<char> },
    StoreUnavailable { detail: Seq<char> },
}

/// A [`ResolutionError`] as contracts speak of it.
pub enum ResolutionErrorView {
    UnsupportedShape,
    FieldResolutionFailed { field_name: Seq<char>, cause: StoreErrorView },
}

impl View for StoreError {
    type V = StoreErrorView;

    open spec fn view(&self) -> StoreErrorView {
        match *self {
            StoreError::KeyNotFound { key } => StoreErrorView::KeyNotFound { key: key@ },
            StoreError::StoreUnavailable { detail } => StoreErrorView::StoreUnavailable {
                detail: detail@,
            },
        }
    }
}

impl View for ResolutionError {
    type V = ResolutionErrorView;

    open spec fn view(&self) -> ResolutionErrorView {
        match *self {
            ResolutionError::UnsupportedShape => ResolutionErrorView::UnsupportedShape,
            ResolutionError::FieldResolutionFailed { field_name, cause } => {
                ResolutionErrorView::FieldResolutionFailed { field_name: field_name@, cause: cause@ }
            },
        }
    }
}

impl View for AdapterInitError {
    type V = Seq<char>;

    open spec fn view(&self) -> Seq<char> {
        self.detail@
    }
}

/// The text a store failure is reported with.
pub open spec fn store_error_text(e: StoreErrorView) -> Seq<char> {
    match e {
        StoreErrorView::KeyNotFound { key } => "no value found for "@ + key,
        StoreErrorView::StoreUnavailable { detail } => "parameter store unavailable: "@ + detail,
    }
}

/// The text a failed resolution is reported with.
pub open spec fn resolution_error_text(e: ResolutionErrorView) -> Seq<char> {
    match e {
        ResolutionErrorView::UnsupportedShape => "Only structs supported"@,
        ResolutionErrorView::FieldResolutionFailed { field_name, cause } => {
            "could not resolve field "@ + field_name + ": "@ + store_error_text(cause)
        },
    }
}

impl StoreError {
    /// The failure in words.
    pub fn message(&self) -> (text: String)
        ensures
            text@ == store_error_text(self@),
    {
        match self {
            StoreError::KeyNotFound { key } => {
                let mut text = String::from_str("no value found for ");
                text.append(key.as_str());
                text
            },
            StoreError::StoreUnavailable { detail } => {
                let mut text = String::from_str("parameter store unavailable: ");
                text.append(detail.as_str());
                text
            },
        }
    }
}

impl ResolutionError {
    /// The failure in words: which field failed, and why.
    pub fn message(&self) -> (text: String)
        ensures
            text@ == resolution_error_text(self@),
    {
        match self {
            ResolutionError::UnsupportedShape => {
                String::from_str("Only structs supported")
            },
            ResolutionError::FieldResolutionFailed { field_name, cause } => {
                let mut text = String::from_str("could not resolve field ");
                text.append(field_name.as_str());
                text.append(": ");
                let reason = cause.message();
                text.append(reason.as_str());
                text
            },
        }
    }
}

impl AdapterInitError {
    /// The failure in words.
    pub fn message(&self) -> (text: String)
        ensures
            text@ == "could not set up the parameter store adapter: "@ + self@,
    {
        let mut text = String::from_str("could not set up the parameter store adapter: ");
        text.append(self.detail.as_str());
        text
    }
}

} // verus!
