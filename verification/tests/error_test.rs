use axum::http::StatusCode;
use music_licensing_backend::domain::license::LicenseStatus;
use music_licensing_backend::error::AppError;

fn status(error: &AppError) -> StatusCode {
    StatusCode::from_u16(error.status_code()).unwrap()
}

#[test]
fn not_found_maps_to_404() {
    assert_eq!(status(&AppError::NotFound), StatusCode::NOT_FOUND);
}

#[test]
fn bad_request_maps_to_400() {
    let error = AppError::BadRequest("bad input".to_string());
    assert_eq!(status(&error), StatusCode::BAD_REQUEST);
}

#[test]
fn invalid_transition_maps_to_409() {
    let error = AppError::InvalidTransition {
        from: LicenseStatus::Draft,
        to: LicenseStatus::Licensed,
    };
    assert_eq!(status(&error), StatusCode::CONFLICT);
}

#[test]
fn database_error_maps_to_500() {
    let error = AppError::from(sqlx::Error::RowNotFound);
    assert_eq!(status(&error), StatusCode::INTERNAL_SERVER_ERROR);
}

#[test]
fn messages_describe_each_error() {
    assert_eq!(AppError::NotFound.message(), "resource not found");
    assert_eq!(AppError::BadRequest("bad input".to_string()).message(), "bad input");
    assert_eq!(
        AppError::InvalidTransition { from: LicenseStatus::Draft, to: LicenseStatus::Licensed }
            .message(),
        "cannot move license status from Draft to Licensed"
    );
    assert_eq!(
        AppError::InvalidTransition {
            from: LicenseStatus::InNegotiation,
            to: LicenseStatus::Requested
        }
        .message(),
        "cannot move license status from InNegotiation to Requested"
    );
}

#[test]
fn database_details_are_not_disclosed() {
    let error = AppError::from(sqlx::Error::Protocol("secret table layout".to_string()));
    assert!(matches!(error, AppError::Database(_)));
    assert_eq!(error.message(), "internal server error");
}
