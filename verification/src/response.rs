//! The envelope in which every answer travels: a business code, a message and the data,
//! if any.  The HTTP status goes beside it and is not part of the body.

use crate::error::ApiError;
use vstd::prelude::*;

verus! {

/// The HTTP status of an answer that succeeded.
pub const HTTP_OK: u16 = 200;

/// The HTTP status of an answer that failed on the server.
pub const HTTP_INTERNAL_SERVER_ERROR: u16 = 500;

/// The uniform answer.  A `code` of zero means success.
#[derive(Debug, PartialEq, Eq)]
pub struct ApiResponse<T> {
    pub code: i32,
    pub msg: String,
    pub data: Option<T>,
    /// The status for the transport's status line.
    pub http_status: u16,
}

/// What a request handler returns: an envelope, or the failure to report.
pub type ApiResult<T = ()> = Result<ApiResponse<T>, ApiError>;

impl<T> ApiResponse<T> {
    /// Tells whether the envelope is the plain success: code zero, message `ok`,
    /// status 200.
    pub open spec fn is_ok(&self) -> bool {
        &&& self.code == 0
        &&& self.msg@ == "ok"@
        &&& self.http_status == HTTP_OK
    }

    /// A success that carries `data`.
    pub fn success(data: T) -> (r: Self)
        ensures
            r.is_ok(),
            r.data == Some(data),
    {
        ApiResponse { code: 0, msg: String::from_str("ok"), data: Some(data), http_status: HTTP_OK }
    }

    /// A failure with the given business code and message.  There is no data, and the
    /// status is 200 until [`ApiResponse::status`] sets another.
    pub fn error(code: i32, msg: String) -> (r: Self)
        ensures
            r.code == code,
            r.msg == msg,
            r.data is None,
            r.http_status == HTTP_OK,
    {
        ApiResponse { code, msg, data: None, http_status: HTTP_OK }
    }

    /// A success without data.
    pub fn ok() -> (r: Self)
        ensures
            r.is_ok(),
            r.data is None,
    {
        ApiResponse { code: 0, msg: String::from_str("ok"), data: None, http_status: HTTP_OK }
    }

    /// A failure on the server: business code 500, the given message, no data, status 500.
    pub fn server_error(msg: String) -> (r: Self)
        ensures
            r.code == 500,
            r.msg == msg,
            r.data is None,
            r.http_status == HTTP_INTERNAL_SERVER_ERROR,
    {
        ApiResponse { code: 500, msg, data: None, http_status: HTTP_INTERNAL_SERVER_ERROR }
    }

    /// The same envelope with another HTTP status.
    pub fn status(self, status: u16) -> (r: Self)
        ensures
            r.code == self.code,
            r.msg == self.msg,
            r.data == self.data,
            r.http_status == status,
    {
        let mut r = self;
        r.http_status = status;
        r
    }
}

impl Default for ApiResponse<()> {
    /// The success without data.
    fn default() -> (r: Self)
        ensures
            r.is_ok(),
            r.data is None,
    {
        Self::ok()
    }
}

} // verus!
