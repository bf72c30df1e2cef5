//! The failure of a call to a cloud service: the caller's fault, or the service's.

use vstd::prelude::*;
use vstd::string::to_string_from_display_ensures;
use vstd::string::StringExecFns;

verus! {

/// Why a call to a cloud service failed.
#[derive(Debug, Clone, PartialEq, Eq)]
pub enum CloudError {
    /// The request was at fault; the text says how.
    Client(String),
    /// The service was at fault; the text is that of the failure it came from.
    Server(String),
}

/// A [`CloudError`] as contracts speak of it.
pub enum CloudErrorView {
    Client(Seq<char>),
    Server(Seq<char>),
}

impl View for CloudError {
    type V = CloudErrorView;

    open spec fn view(&self) -> CloudErrorView {
        match *self {
            CloudError::Client(text) => CloudErrorView::Client(text@),
            CloudError::Server(text) => CloudErrorView::Server(text@),
        }
    }
}

/// The text a cloud failure is reported with.
pub open spec fn cloud_error_text(e: CloudErrorView) -> Seq<char> {
    match e {
        CloudErrorView::Client(text) => "Client error: "@ + text,
        CloudErrorView::Server(text) => "Server error: "@ + text,
    }
}

impl CloudError {
    /// A failure of the service, from the failure that caused it: it keeps the text that the
    /// cause displays.
    pub fn server<E>(e: E) -> (error: Self) where E: std::error::Error + Send + Sync + 'static
        ensures
            error matches CloudError::Server(text) && to_string_from_display_ensures::<E>(
                &e,
                text,
            ),
    {
        CloudError::Server(e.to_string())
    }

    /// The failure in words.
    pub fn message(&self) -> (text: String)
        ensures
            text@ == cloud_error_text(self@),
    {
        match self {
            CloudError::Client(detail) => {
                let mut text = String::from_str("Client error: ");
                text.append(detail.as_str());
                text
            },
            CloudError::Server(detail) => {
                let mut text = String::from_str("Server error: ");
                text.append(detail.as_str());
                text
            },
        }
    }
}

} // verus!
