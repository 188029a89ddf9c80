//! What can go wrong in a request, and what the client is told about it.

use crate::data::StorageError;
use crate::routes::{Response, ResponseView};
use vstd::prelude::*;
use vstd::std_specs::convert::FromSpecImpl;

verus! {

/// A request that could not be served.
#[derive(Debug, PartialEq, Eq)]
pub enum AppError {
    /// The store failed.
    Database(StorageError),
    /// The upload could not be read as a multipart form.
    Multipart,
    /// No paste has the identifier that was asked for.
    NotFound,
    /// The request was well-formed but cannot be accepted; the text says why.
    BadRequest(String),
}

/// The model of an [`AppError`].
pub enum AppErrorView {
    Database(StorageError),
    Multipart,
    NotFound,
    BadRequest(Seq<char>),
}

impl View for AppError {
    type V = AppErrorView;

    open spec fn view(&self) -> AppErrorView {
        match self {
            AppError::Database(e) => AppErrorView::Database(*e),
            AppError::Multipart => AppErrorView::Multipart,
            AppError::NotFound => AppErrorView::NotFound,
            AppError::BadRequest(message) => AppErrorView::BadRequest(message@),
        }
    }
}

/// The HTTP status that reports `error`.
pub open spec fn status_of(error: AppErrorView) -> u16 {
    match error {
        AppErrorView::Database(_) => 500,
        AppErrorView::Multipart => 400,
        AppErrorView::NotFound => 404,
        AppErrorView::BadRequest(_) => 400,
    }
}

/// The text that reports `error`. A store failure is not described to the
/// client.
pub open spec fn message_of(error: AppErrorView) -> Seq<char> {
    match error {
        AppErrorView::Database(_) => "Internal server error"@,
        AppErrorView::Multipart => "Invalid upload"@,
        AppErrorView::NotFound => "Paste not found"@,
        AppErrorView::BadRequest(message) => message,
    }
}

impl From<StorageError> for AppError {
    fn from(error: StorageError) -> (e: AppError) {
        AppError::Database(error)
    }
}

impl FromSpecImpl<StorageError> for AppError {
    open spec fn obeys_from_spec() -> bool {
        true
    }

    open spec fn from_spec(error: StorageError) -> AppError {
        AppError::Database(error)
    }
}

impl AppError {
    /// The response that reports this error: its status and its text.
    pub fn into_response(self) -> (response: Response)
        ensures
            response@ == (ResponseView::Error {
                status: status_of(self@),
                message: message_of(self@),
            }),
    {
        match self {
            AppError::Database(_) => Response::Error {
                status: 500,
                message: "Internal server error".to_owned(),
            },
            AppError::Multipart => Response::Error {
                status: 400,
                message: "Invalid upload".to_owned(),
            },
            AppError::NotFound => Response::Error {
                status: 404,
                message: "Paste not found".to_owned(),
            },
            AppError::BadRequest(message) => Response::Error { status: 400, message },
        }
    }
}

} // verus!
