use dora_tool::error::ApiError;
use dora_tool::response::{ApiResponse, ApiResult, HTTP_INTERNAL_SERVER_ERROR, HTTP_OK};

const ALL: [ApiError; 7] = [
    ApiError::NotFound,
    ApiError::InvalidParam,
    ApiError::Unauthorized,
    ApiError::PermissionDenied,
    ApiError::DbError,
    ApiError::Unknown,
    ApiError::Conflict,
];

#[test]
fn errors_have_their_codes() {
    let codes: Vec<i32> = ALL.iter().map(|e| e.code()).collect();
    assert_eq!(codes, vec![404, 1002, 1003, 1004, 2001, 9999, 2002]);
}

#[test]
fn errors_have_their_messages() {
    let msgs: Vec<&str> = ALL.iter().map(|e| e.msg()).collect();
    assert_eq!(
        msgs,
        vec![
            "Resource Not Found",
            "Invalid Parameters",
            "Unauthorized Access",
            "Permission Denied",
            "Database Error",
            "Unknown Server Error",
            "Resource Already Exists",
        ]
    );
}

#[test]
fn errors_have_their_statuses() {
    let statuses: Vec<u16> = ALL.iter().map(|e| e.status()).collect();
    assert_eq!(statuses, vec![404, 400, 401, 403, 500, 500, 409]);
}

#[test]
fn error_envelope_carries_code_message_and_status() {
    for e in ALL {
        let resp = e.response();
        assert_eq!(resp.code, e.code());
        assert_eq!(resp.msg, e.msg());
        assert_eq!(resp.data, None);
        assert_eq!(resp.http_status, e.status());
    }
    let resp = ApiError::InvalidParam.response();
    assert_eq!(
        resp,
        ApiResponse { code: 1002, msg: "Invalid Parameters".to_string(), data: None, http_status: 400 }
    );
}

#[test]
fn success_carries_the_data() {
    let resp = ApiResponse::success(vec![1u8, 2, 3]);
    assert_eq!(
        resp,
        ApiResponse { code: 0, msg: "ok".to_string(), data: Some(vec![1u8, 2, 3]), http_status: 200 }
    );
}

#[test]
fn ok_carries_no_data() {
    let resp: ApiResponse<u32> = ApiResponse::ok();
    assert_eq!(resp, ApiResponse { code: 0, msg: "ok".to_string(), data: None, http_status: 200 });
    assert_eq!(ApiResponse::<()>::default(), ApiResponse::<()>::ok());
}

#[test]
fn error_keeps_status_ok_until_set() {
    let resp: ApiResponse<()> = ApiResponse::error(1234, "went wrong".to_string());
    assert_eq!(
        resp,
        ApiResponse { code: 1234, msg: "went wrong".to_string(), data: None, http_status: HTTP_OK }
    );
    let moved = resp.status(418);
    assert_eq!(
        moved,
        ApiResponse { code: 1234, msg: "went wrong".to_string(), data: None, http_status: 418 }
    );
}

#[test]
fn server_error_has_code_and_status_500() {
    let resp: ApiResponse<()> = ApiResponse::server_error("boom".to_string());
    assert_eq!(
        resp,
        ApiResponse {
            code: 500,
            msg: "boom".to_string(),
            data: None,
            http_status: HTTP_INTERNAL_SERVER_ERROR,
        }
    );
    assert_eq!(HTTP_INTERNAL_SERVER_ERROR, 500);
    assert_eq!(HTTP_OK, 200);
}

#[test]
fn status_changes_nothing_but_the_status() {
    let resp = ApiResponse::success("data".to_string()).status(201);
    assert_eq!(
        resp,
        ApiResponse { code: 0, msg: "ok".to_string(), data: Some("data".to_string()), http_status: 201 }
    );
}

#[test]
fn result_defaults_to_no_data() {
    let r: ApiResult = Ok(ApiResponse::ok());
    assert_eq!(r, Ok(ApiResponse::default()));
    let e: ApiResult = Err(ApiError::Conflict);
    assert_eq!(e, Err(ApiError::Conflict));
}
