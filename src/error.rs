use vstd::prelude::*;

use crate::server::{ResponseStatus, UrlResponse};

verus! {

pub const STATUS_OK: u16 = 200;

pub const STATUS_TEMPORARY_REDIRECT: u16 = 307;

pub const STATUS_BAD_REQUEST: u16 = 400;

pub const STATUS_UNAUTHORIZED: u16 = 401;

pub const STATUS_NOT_FOUND: u16 = 404;

pub const STATUS_REQUEST_TIMEOUT: u16 = 408;

pub const STATUS_INTERNAL_SERVER_ERROR: u16 = 500;

pub const STATUS_SERVICE_UNAVAILABLE: u16 = 503;

/// Everything that can go wrong while handling a request.
#[derive(Debug, Clone, PartialEq, Eq)]
pub enum AppError {
    /// A failure with no dedicated kind; the text is for logs, never for clients.
    Custom(String),
    /// No mapping exists for the alias.
    UrlNotFound,
    /// The alias is already taken.
    UrlExists,
    /// The store failed for a reason other than a taken alias.
    DatabaseError,
    /// The alias is shorter than the minimum length.
    ToShortAlias,
    /// The URL is not a valid absolute URL.
    UrlError,
    /// Credentials are missing or wrong.
    Unauthorized,
}

/// The HTTP status each error is answered with.
pub open spec fn status_of(e: AppError) -> u16 {
    match e {
        AppError::Custom(_) => STATUS_INTERNAL_SERVER_ERROR,
        AppError::UrlNotFound => STATUS_NOT_FOUND,
        AppError::UrlExists => STATUS_BAD_REQUEST,
        AppError::DatabaseError => STATUS_INTERNAL_SERVER_ERROR,
        AppError::ToShortAlias => STATUS_BAD_REQUEST,
        AppError::UrlError => STATUS_BAD_REQUEST,
        AppError::Unauthorized => STATUS_UNAUTHORIZED,
    }
}

/// The human-readable text each error is answered with.
pub open spec fn message_of(e: AppError) -> Seq<char> {
    match e {
        AppError::Custom(_) => "internal error"@,
        AppError::UrlNotFound => "alias not found"@,
        AppError::UrlExists => "alias already exists"@,
        AppError::DatabaseError => "database error"@,
        AppError::ToShortAlias => "alias length must be greater than 4"@,
        AppError::UrlError => "incorrect url"@,
        AppError::Unauthorized => "unauthorized"@,
    }
}

impl AppError {
    pub fn status_code(&self) -> (r: u16)
        ensures
            r == status_of(*self),
    {
        match self {
            AppError::Custom(_) => STATUS_INTERNAL_SERVER_ERROR,
            AppError::UrlNotFound => STATUS_NOT_FOUND,
            AppError::UrlExists => STATUS_BAD_REQUEST,
            AppError::DatabaseError => STATUS_INTERNAL_SERVER_ERROR,
            AppError::ToShortAlias => STATUS_BAD_REQUEST,
            AppError::UrlError => STATUS_BAD_REQUEST,
            AppError::Unauthorized => STATUS_UNAUTHORIZED,
        }
    }

    pub fn message(&self) -> (r: String)
        ensures
            r@ == message_of(*self),
    {
        match self {
            AppError::Custom(_) => String::from_str("internal error"),
            AppError::UrlNotFound => String::from_str("alias not found"),
            AppError::UrlExists => String::from_str("alias already exists"),
            AppError::DatabaseError => String::from_str("database error"),
            AppError::ToShortAlias => String::from_str("alias length must be greater than 4"),
            AppError::UrlError => String::from_str("incorrect url"),
            AppError::Unauthorized => String::from_str("unauthorized"),
        }
    }

    /// The status and body that answer a request which failed with this error.
    pub fn into_response(self) -> (r: (u16, UrlResponse))
        ensures
            r.0 == status_of(self),
            r.1.status == ResponseStatus::Error,
            r.1.error is Some,
            r.1.error->Some_0@ == message_of(self),
            r.1.alias is None,
    {
        let status = self.status_code();
        let text = self.message();
        (status, UrlResponse { status: ResponseStatus::Error, error: Some(text), alias: None })
    }
}

} // verus!
