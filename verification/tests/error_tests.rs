use auth_core::dtos::FilterUserDto;
use auth_core::errors::{decimal_string, ErrorMessage, HttpError};
use auth_core::models::{User, UserRole};

#[test]
fn messages_match_their_wording() {
    assert_eq!(ErrorMessage::ServerError.to_str(), "Server Error. Please try again later");
    assert_eq!(ErrorMessage::WrongCredentials.to_str(), "Email or password are wrong");
    assert_eq!(ErrorMessage::EmailExist.to_str(), "Email already exists in the database");
    assert_eq!(
        ErrorMessage::UserNoLongerExists.to_str(),
        "User belonging to this token no longer exists"
    );
    assert_eq!(ErrorMessage::EmptyPassword.to_str(), "Password should not be empty");
    assert_eq!(ErrorMessage::HashingError.to_str(), "Error while hashing password");
    assert_eq!(ErrorMessage::InvalidHashFormat.to_str(), "Invalid passowrd hash format");
    assert_eq!(ErrorMessage::EmptySubject.to_str(), "Token subject should not be empty");
    assert_eq!(ErrorMessage::InvalidToken.to_str(), "Invalid token");
    assert_eq!(ErrorMessage::TokenNotProvided.to_str(), "Token not provided");
    assert_eq!(ErrorMessage::PermissionsDenied.to_str(), "Not allowed to perform this action");
}

#[test]
fn length_message_renders_its_limit() {
    assert_eq!(
        ErrorMessage::ExceedMaxPasswordLength(64).to_str(),
        "Password should not exceed 64 characters"
    );
}

#[test]
fn decimal_rendering_is_exact() {
    assert_eq!(decimal_string(0), "0");
    assert_eq!(decimal_string(7), "7");
    assert_eq!(decimal_string(10), "10");
    assert_eq!(decimal_string(12345), "12345");
}

#[test]
fn statuses_follow_the_boundary_mapping() {
    assert_eq!(ErrorMessage::InvalidToken.status_code(), 401);
    assert_eq!(ErrorMessage::TokenNotProvided.status_code(), 401);
    assert_eq!(ErrorMessage::UserNoLongerExists.status_code(), 401);
    assert_eq!(ErrorMessage::WrongCredentials.status_code(), 401);
    assert_eq!(ErrorMessage::PermissionsDenied.status_code(), 403);
    assert_eq!(ErrorMessage::EmailExist.status_code(), 409);
    assert_eq!(ErrorMessage::EmptyPassword.status_code(), 400);
    assert_eq!(ErrorMessage::EmptySubject.status_code(), 400);
    assert_eq!(ErrorMessage::ExceedMaxPasswordLength(64).status_code(), 400);
    assert_eq!(ErrorMessage::InvalidHashFormat.status_code(), 400);
    assert_eq!(ErrorMessage::HashingError.status_code(), 500);
    assert_eq!(ErrorMessage::ServerError.status_code(), 500);
}

#[test]
fn constructors_set_their_statuses() {
    assert_eq!(HttpError::new("m".to_string(), 418).status, 418);
    assert_eq!(HttpError::server_error("m".to_string()).status, 500);
    assert_eq!(HttpError::bad_request("m".to_string()).status, 400);
    assert_eq!(HttpError::unique_constraint_violation("m".to_string()).status, 409);
    assert_eq!(HttpError::unauthorized("m".to_string()).status, 401);
    assert_eq!(HttpError::not_found("m".to_string()).status, 404);
}

#[test]
fn out_of_taxonomy_status_collapses_to_500_error() {
    let teapot = HttpError::new("m".to_string(), 418);
    assert_eq!(teapot.wire_status(), 500);
    let body = teapot.to_response();
    assert_eq!(body.status, "error");
    assert_eq!(HttpError::not_found("m".to_string()).wire_status(), 404);
    assert_eq!(HttpError::new("m".to_string(), 403).wire_status(), 403);
}

#[test]
fn response_body_splits_fail_from_error() {
    let fail = HttpError::unauthorized("no".to_string()).to_response();
    assert_eq!(fail.status, "fail");
    assert_eq!(fail.message, "no");
    let err = HttpError::server_error("boom".to_string()).to_response();
    assert_eq!(err.status, "error");
    assert_eq!(err.message, "boom");
}

#[test]
fn roles_have_their_wire_names() {
    assert_eq!(UserRole::Admin.to_str(), "admin");
    assert_eq!(UserRole::Moderator.to_str(), "moderator");
    assert_eq!(UserRole::User.to_str(), "user");
}

#[test]
fn filtering_drops_the_password_and_names_the_role() {
    let user = User {
        id: "u1".to_string(),
        name: "Jordan".to_string(),
        email: "jordan@example.com".to_string(),
        password: "hashed".to_string(),
        role: UserRole::Moderator,
        photo: "p.png".to_string(),
        verified: true,
        created_at: Some(11),
        updated_at: Some(22),
    };
    let f = FilterUserDto::filter_user(&user);
    assert_eq!(f.id, "u1");
    assert_eq!(f.name, "Jordan");
    assert_eq!(f.email, "jordan@example.com");
    assert_eq!(f.role, "moderator");
    assert_eq!(f.photo, "p.png");
    assert!(f.verified);
    assert_eq!(f.created_at, Some(11));
    assert_eq!(f.updated_at, Some(22));
}

#[test]
fn filtering_a_list_keeps_order_and_length() {
    let mut a = User {
        id: "a".to_string(),
        name: "A".to_string(),
        email: "a@example.com".to_string(),
        password: "h".to_string(),
        role: UserRole::Admin,
        photo: "".to_string(),
        verified: false,
        created_at: None,
        updated_at: None,
    };
    let mut b = a.duplicate();
    b.id = "b".to_string();
    b.role = UserRole::User;
    a.name = "first".to_string();
    let out = FilterUserDto::filter_users(&[a, b]);
    assert_eq!(out.len(), 2);
    assert_eq!(out[0].id, "a");
    assert_eq!(out[0].name, "first");
    assert_eq!(out[1].id, "b");
    assert_eq!(out[1].role, "user");
}
