//! The failures that a request can end in, as callers see them.
//!
//! Each failure has a stable business code, a message for people and the HTTP status
//! that the transport answers with.

use crate::response::ApiResponse;
use vstd::prelude::*;

verus! {

/// The closed set of failures that the query and configuration surface reports.
#[derive(Debug, Clone, Copy, PartialEq, Eq, Structural)]
pub enum ApiError {
    /// The resource does not exist.
    NotFound,
    /// The request's parameters are not acceptable.
    InvalidParam,
    /// The caller is not logged in.
    Unauthorized,
    /// The caller may not do this.
    PermissionDenied,
    /// The database failed.
    DbError,
    /// Anything else that went wrong on the server.
    Unknown,
    /// The resource exists already, for instance under the same name.
    Conflict,
}

/// The business code of each failure.
pub open spec fn code_of(e: ApiError) -> i32 {
    match e {
        ApiError::NotFound => 404,
        ApiError::InvalidParam => 1002,
        ApiError::Unauthorized => 1003,
        ApiError::PermissionDenied => 1004,
        ApiError::DbError => 2001,
        ApiError::Unknown => 9999,
        ApiError::Conflict => 2002,
    }
}

/// The message of each failure.
pub open spec fn message_of(e: ApiError) -> Seq<char> {
    match e {
        ApiError::NotFound => "Resource Not Found"@,
        ApiError::InvalidParam => "Invalid Parameters"@,
        ApiError::Unauthorized => "Unauthorized Access"@,
        ApiError::PermissionDenied => "Permission Denied"@,
        ApiError::DbError => "Database Error"@,
        ApiError::Unknown => "Unknown Server Error"@,
        ApiError::Conflict => "Resource Already Exists"@,
    }
}

/// The HTTP status of each failure.
pub open spec fn status_of(e: ApiError) -> u16 {
    match e {
        ApiError::NotFound => 404,
        ApiError::InvalidParam => 400,
        ApiError::Unauthorized => 401,
        ApiError::PermissionDenied => 403,
        ApiError::DbError => 500,
        ApiError::Unknown => 500,
        ApiError::Conflict => 409,
    }
}

impl ApiError {
    /// The stable numeric business code.
    pub fn code(&self) -> (c: i32)
        ensures
            c == code_of(*self),
    {
        match self {
            ApiError::NotFound => 404,
            ApiError::InvalidParam => 1002,
            ApiError::Unauthorized => 1003,
            ApiError::PermissionDenied => 1004,
            ApiError::DbError => 2001,
            ApiError::Unknown => 9999,
            ApiError::Conflict => 2002,
        }
    }

    /// The message for people.
    pub fn msg(&self) -> (m: &'static str)
        ensures
            m@ == message_of(*self),
    {
        match self {
            ApiError::NotFound => "Resource Not Found",
            ApiError::InvalidParam => "Invalid Parameters",
            ApiError::Unauthorized => "Unauthorized Access",
            ApiError::PermissionDenied => "Permission Denied",
            ApiError::DbError => "Database Error",
            ApiError::Unknown => "Unknown Server Error",
            ApiError::Conflict => "Resource Already Exists",
        }
    }

    /// The HTTP status that the transport answers with.
    pub fn status(&self) -> (s: u16)
        ensures
            s == status_of(*self),
    {
        match self {
            ApiError::NotFound => 404,
            ApiError::InvalidParam => 400,
            ApiError::Unauthorized => 401,
            ApiError::PermissionDenied => 403,
            ApiError::DbError => 500,
            ApiError::Unknown => 500,
            ApiError::Conflict => 409,
        }
    }

    /// The envelope that reports this failure: its code and message, no data, and its
    /// HTTP status.
    pub fn response(&self) -> (r: ApiResponse<()>)
        ensures
            r.code == code_of(*self),
            r.msg@ == message_of(*self),
            r.data is None,
            r.http_status == status_of(*self),
    {
        ApiResponse::<()>::error(self.code(), String::from_str(self.msg())).status(self.status())
    }
}

} // verus!
