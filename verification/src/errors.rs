//! The error taxonomy of the pipeline and its mapping to HTTP statuses.
//!
//! Every stage returns one of these variants up to the orchestrating
//! handlers, which perform no recovery: each variant maps to one fixed
//! HTTP status code and one message, both pinned by the contracts here.

use vstd::prelude::*;

verus! {

/// A typed failure of one stage of the conversion pipeline.
#[derive(Debug)]
pub enum ApiError {
    /// Authentication failed.
    AuthenticationError,
    /// Authorization failed.
    AuthorizationError,
    /// A requested resource (an uploaded file, a stored artifact) is absent.
    NotFound(String),
    /// The input has a bad shape, size, type or count.
    ValidationError(String),
    /// A local read, write or directory creation failed.
    FileError(String),
    /// The remote conversion backend failed.
    ClaudeError(String),
    /// The LaTeX-to-PDF toolchain failed.
    LaTeXError(String),
    /// A storage backend failed.
    DatabaseError(String),
    /// Anything unexpected or configuration-related.
    InternalServerError(String),
}

impl ApiError {
    /// The HTTP status code that this error maps to.
    pub open spec fn spec_status(&self) -> u16 {
        match self {
            ApiError::AuthenticationError => 401,
            ApiError::AuthorizationError => 403,
            ApiError::NotFound(_) => 404,
            ApiError::ValidationError(_) => 400,
            ApiError::FileError(_) => 400,
            ApiError::ClaudeError(_) => 500,
            ApiError::LaTeXError(_) => 500,
            ApiError::DatabaseError(_) => 500,
            ApiError::InternalServerError(_) => 500,
        }
    }

    /// The message that the error response carries.
    pub open spec fn spec_message(&self) -> Seq<char> {
        match self {
            ApiError::AuthenticationError => "Authentication failed"@,
            ApiError::AuthorizationError => "Authorization failed"@,
            ApiError::NotFound(m) => m@,
            ApiError::ValidationError(m) => m@,
            ApiError::FileError(m) => m@,
            ApiError::ClaudeError(m) => m@,
            ApiError::LaTeXError(m) => m@,
            ApiError::DatabaseError(m) => m@,
            ApiError::InternalServerError(m) => m@,
        }
    }

    /// The status code of the HTTP response for this error.
    pub fn status_code(&self) -> (code: u16)
        ensures
            code == self.spec_status(),
    {
        match self {
            ApiError::AuthenticationError => 401,
            ApiError::AuthorizationError => 403,
            ApiError::NotFound(_) => 404,
            ApiError::ValidationError(_) => 400,
            ApiError::FileError(_) => 400,
            ApiError::ClaudeError(_) => 500,
            ApiError::LaTeXError(_) => 500,
            ApiError::DatabaseError(_) => 500,
            ApiError::InternalServerError(_) => 500,
        }
    }

    /// The message of the HTTP response body for this error.
    pub fn message(&self) -> (msg: String)
        ensures
            msg@ == self.spec_message(),
    {
        match self {
            ApiError::AuthenticationError => String::from_str("Authentication failed"),
            ApiError::AuthorizationError => String::from_str("Authorization failed"),
            ApiError::NotFound(m) => m.clone(),
            ApiError::ValidationError(m) => m.clone(),
            ApiError::FileError(m) => m.clone(),
            ApiError::ClaudeError(m) => m.clone(),
            ApiError::LaTeXError(m) => m.clone(),
            ApiError::DatabaseError(m) => m.clone(),
            ApiError::InternalServerError(m) => m.clone(),
        }
    }
}

} // verus!
