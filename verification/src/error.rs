//! The error taxonomy shared by every component, and its mapping to
//! HTTP status codes.

use vstd::prelude::*;
use vstd::string::StringExecFns;

verus! {

/// The failure kinds of the board core.
#[derive(Debug)]
pub enum AppError {
    /// A resource is missing: the entity's kind, then the key it was looked up by.
    NotFound(String, String),
    /// The input breaks a rule (a post that is too large, an OP flag that is wrong).
    ValidationError(String),
    /// The client may not do this (banned, bad moderator credentials).
    Unauthorized(String),
    /// The infrastructure failed (database, storage).
    Internal(String),
    /// The operation collides with what is stored (duplicate key, locked thread).
    Conflict(String),
    /// The client sends too much.
    RateLimitExceeded(String),
}

/// The kind of an error, without its text.
#[derive(Debug, Clone, Copy, PartialEq, Eq, Structural)]
pub enum ErrorKind {
    NotFound,
    ValidationError,
    Unauthorized,
    Internal,
    Conflict,
    RateLimitExceeded,
}

/// The mathematical value of an [`AppError`]: its kind and its texts.
pub struct ErrorView {
    pub kind: ErrorKind,
    /// The entity's kind for `NotFound`, empty otherwise.
    pub entity: Seq<char>,
    /// The key for `NotFound`, the reason otherwise.
    pub detail: Seq<char>,
}

impl View for AppError {
    type V = ErrorView;

    open spec fn view(&self) -> ErrorView {
        match self {
            AppError::NotFound(entity, key) => ErrorView {
                kind: ErrorKind::NotFound,
                entity: entity@,
                detail: key@,
            },
            AppError::ValidationError(why) => ErrorView {
                kind: ErrorKind::ValidationError,
                entity: Seq::empty(),
                detail: why@,
            },
            AppError::Unauthorized(why) => ErrorView {
                kind: ErrorKind::Unauthorized,
                entity: Seq::empty(),
                detail: why@,
            },
            AppError::Internal(why) => ErrorView {
                kind: ErrorKind::Internal,
                entity: Seq::empty(),
                detail: why@,
            },
            AppError::Conflict(why) => ErrorView {
                kind: ErrorKind::Conflict,
                entity: Seq::empty(),
                detail: why@,
            },
            AppError::RateLimitExceeded(why) => ErrorView {
                kind: ErrorKind::RateLimitExceeded,
                entity: Seq::empty(),
                detail: why@,
            },
        }
    }
}

/// The HTTP status that answers an error of the given kind.
pub open spec fn status_of(kind: ErrorKind) -> u16 {
    match kind {
        ErrorKind::NotFound => 404,
        ErrorKind::ValidationError => 400,
        ErrorKind::Unauthorized => 403,
        ErrorKind::Conflict => 409,
        ErrorKind::RateLimitExceeded => 429,
        ErrorKind::Internal => 500,
    }
}

/// The text that describes an error.
pub open spec fn message_of(e: ErrorView) -> Seq<char> {
    match e.kind {
        ErrorKind::NotFound => e.entity + " not found with ID "@ + e.detail,
        ErrorKind::ValidationError => "validation error: "@ + e.detail,
        ErrorKind::Unauthorized => "unauthorized: "@ + e.detail,
        ErrorKind::Internal => "internal service error: "@ + e.detail,
        ErrorKind::Conflict => "conflict: "@ + e.detail,
        ErrorKind::RateLimitExceeded => "too many requests: "@ + e.detail,
    }
}

impl AppError {
    /// The kind of this error.
    pub open spec fn spec_kind(&self) -> ErrorKind {
        self@.kind
    }

    /// The text that describes this error.
    pub open spec fn spec_message(&self) -> Seq<char> {
        message_of(self@)
    }

    #[verifier::when_used_as_spec(spec_kind)]
    pub fn kind(&self) -> (k: ErrorKind)
        ensures
            k == self.spec_kind(),
    {
        match self {
            AppError::NotFound(_, _) => ErrorKind::NotFound,
            AppError::ValidationError(_) => ErrorKind::ValidationError,
            AppError::Unauthorized(_) => ErrorKind::Unauthorized,
            AppError::Internal(_) => ErrorKind::Internal,
            AppError::Conflict(_) => ErrorKind::Conflict,
            AppError::RateLimitExceeded(_) => ErrorKind::RateLimitExceeded,
        }
    }

    /// The HTTP status code that answers this error at the boundary.
    pub fn status_code(&self) -> (code: u16)
        ensures
            code == status_of(self.spec_kind()),
    {
        match self {
            AppError::NotFound(_, _) => 404,
            AppError::ValidationError(_) => 400,
            AppError::Unauthorized(_) => 403,
            AppError::Conflict(_) => 409,
            AppError::RateLimitExceeded(_) => 429,
            AppError::Internal(_) => 500,
        }
    }

    /// The error's description, as a log line would show it.
    pub fn message(&self) -> (text: String)
        ensures
            text@ == self.spec_message(),
    {
        match self {
            AppError::NotFound(entity, key) => {
                entity.clone().concat(" not found with ID ").concat(key.as_str())
            },
            AppError::ValidationError(why) => {
                String::from_str("validation error: ").concat(why.as_str())
            },
            AppError::Unauthorized(why) => String::from_str("unauthorized: ").concat(why.as_str()),
            AppError::Internal(why) => {
                String::from_str("internal service error: ").concat(why.as_str())
            },
            AppError::Conflict(why) => String::from_str("conflict: ").concat(why.as_str()),
            AppError::RateLimitExceeded(why) => {
                String::from_str("too many requests: ").concat(why.as_str())
            },
        }
    }

    /// An independent copy of this error.
    pub fn duplicate(&self) -> (copy: AppError)
        ensures
            copy@ == self@,
    {
        match self {
            AppError::NotFound(entity, key) => AppError::NotFound(entity.clone(), key.clone()),
            AppError::ValidationError(why) => AppError::ValidationError(why.clone()),
            AppError::Unauthorized(why) => AppError::Unauthorized(why.clone()),
            AppError::Internal(why) => AppError::Internal(why.clone()),
            AppError::Conflict(why) => AppError::Conflict(why.clone()),
            AppError::RateLimitExceeded(why) => AppError::RateLimitExceeded(why.clone()),
        }
    }
}

} // verus!
