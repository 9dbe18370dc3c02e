//! The answer to a status request.

use crate::session::StatusError;
use crate::summary::{ServerInfo, ServerInfoView};
use vstd::prelude::*;

verus! {

/// The body of the answer: whether the summary could be had, and then either
/// the summary or the message of the error.
#[derive(Debug, PartialEq, Eq)]
pub struct JsonResponse {
    pub success: bool,
    pub error: Option<String>,
    pub server_info: Option<ServerInfo>,
}

/// Mathematical value of a [`JsonResponse`].
pub struct JsonResponseView {
    pub success: bool,
    pub error: Option<Seq<char>>,
    pub server_info: Option<ServerInfoView>,
}

impl View for JsonResponse {
    type V = JsonResponseView;

    open spec fn view(&self) -> JsonResponseView {
        JsonResponseView {
            success: self.success,
            error: match self.error {
                Some(message) => Some(message@),
                None => None,
            },
            server_info: match self.server_info {
                Some(info) => Some(info@),
                None => None,
            },
        }
    }
}

impl JsonResponse {
    /// The answer that reports the outcome of a request: a summary makes a
    /// success without an error message, an error makes a failure with its
    /// message and without a summary.
    pub fn new(outcome: Result<ServerInfo, StatusError>) -> (response: JsonResponse)
        ensures
            response@ == (match outcome {
                Ok(info) => JsonResponseView {
                    success: true,
                    error: None,
                    server_info: Some(info@),
                },
                Err(error) => JsonResponseView {
                    success: false,
                    error: Some(error.message@),
                    server_info: None,
                },
            }),
    {
        match outcome {
            Ok(info) => JsonResponse { success: true, error: None, server_info: Some(info) },
            Err(error) => JsonResponse {
                success: false,
                error: Some(error.message),
                server_info: None,
            },
        }
    }
}

} // verus!
