//! Error taxonomy of the authorization pipeline, the human-readable message
//! of each error, and the pure mapping from errors to HTTP status codes and
//! response bodies. The mapping lives here, apart from the pipeline logic
//! that produces the errors; the surrounding application only turns the
//! resulting `Response` value into an actual HTTP response.

use vstd::prelude::*;

verus! {

/// Serialized form of an error reply: `{status, message}`.
#[derive(Debug)]
pub struct ErrorResponse {
    pub status: String,
    pub message: String,
}

/// Body of a finished HTTP error reply: `status` is `"fail"` for client
/// errors and `"error"` for server errors.
#[derive(Debug)]
pub struct Response {
    pub status: &'static str,
    pub message: String,
}

/// The closed set of failures the pipeline can produce.
#[derive(Clone, Copy, Debug, PartialEq, Eq, Structural)]
pub enum ErrorMessage {
    EmptyPassword,
    ExceedMaxPasswordLength(usize),
    HashingError,
    InvalidHashFormat,
    EmptySubject,
    InvalidToken,
    ServerError,
    WrongCredentials,
    EmailExist,
    UserNoLongerExists,
    TokenNotProvided,
    PermissionsDenied,
}

/// The decimal digit `d` (for `d < 10`) as a character.
pub open spec fn spec_digit_char(d: nat) -> char {
    if d == 0 {
        '0'
    } else if d == 1 {
        '1'
    } else if d == 2 {
        '2'
    } else if d == 3 {
        '3'
    } else if d == 4 {
        '4'
    } else if d == 5 {
        '5'
    } else if d == 6 {
        '6'
    } else if d == 7 {
        '7'
    } else if d == 8 {
        '8'
    } else {
        '9'
    }
}

/// The usual decimal rendering of `n`, most significant digit first.
pub open spec fn spec_decimal(n: nat) -> Seq<char>
    decreases n,
{
    if n < 10 {
        seq![spec_digit_char(n)]
    } else {
        spec_decimal(n / 10) + seq![spec_digit_char(n % 10)]
    }
}

/// The message text carried by each error.
pub open spec fn spec_message(e: ErrorMessage) -> Seq<char> {
    match e {
        ErrorMessage::ServerError => "Server Error. Please try again later"@,
        ErrorMessage::WrongCredentials => "Email or password are wrong"@,
        ErrorMessage::EmailExist => "Email already exists in the database"@,
        ErrorMessage::UserNoLongerExists => "User belonging to this token no longer exists"@,
        ErrorMessage::EmptyPassword => "Password should not be empty"@,
        ErrorMessage::HashingError => "Error while hashing password"@,
        ErrorMessage::InvalidHashFormat => "Invalid passowrd hash format"@,
        ErrorMessage::ExceedMaxPasswordLength(n) => "Password should not exceed "@
            + spec_decimal(n as nat) + " characters"@,
        ErrorMessage::EmptySubject => "Token subject should not be empty"@,
        ErrorMessage::InvalidToken => "Invalid token"@,
        ErrorMessage::TokenNotProvided => "Token not provided"@,
        ErrorMessage::PermissionsDenied => "Not allowed to perform this action"@,
    }
}

/// The HTTP status each error maps to at the outermost boundary:
/// authentication failures are 401, a policy denial is 403, rejected input
/// is 400, a uniqueness conflict is 409, and internal failures are 500.
pub open spec fn spec_status(e: ErrorMessage) -> u16 {
    match e {
        ErrorMessage::InvalidToken => 401,
        ErrorMessage::TokenNotProvided => 401,
        ErrorMessage::UserNoLongerExists => 401,
        ErrorMessage::WrongCredentials => 401,
        ErrorMessage::PermissionsDenied => 403,
        ErrorMessage::EmailExist => 409,
        ErrorMessage::EmptyPassword => 400,
        ErrorMessage::EmptySubject => 400,
        ErrorMessage::ExceedMaxPasswordLength(_) => 400,
        ErrorMessage::InvalidHashFormat => 400,
        ErrorMessage::HashingError => 500,
        ErrorMessage::ServerError => 500,
    }
}

/// The single decimal digit `d` as a string slice.
fn digit_str(d: u8) -> (r: &'static str)
    requires
        d < 10,
    ensures
        r@ =~= seq![spec_digit_char(d as nat)],
{
    proof {
        reveal_strlit("0");
        reveal_strlit("1");
        reveal_strlit("2");
        reveal_strlit("3");
        reveal_strlit("4");
        reveal_strlit("5");
        reveal_strlit("6");
        reveal_strlit("7");
        reveal_strlit("8");
        reveal_strlit("9");
    }
    match d {
        0 => "0",
        1 => "1",
        2 => "2",
        3 => "3",
        4 => "4",
        5 => "5",
        6 => "6",
        7 => "7",
        8 => "8",
        _ => "9",
    }
}

/// Renders `n` in decimal, most significant digit first.
pub fn decimal_string(n: usize) -> (r: String)
    ensures
        r@ == spec_decimal(n as nat),
    decreases n,
{
    if n < 10 {
        let d = digit_str(n as u8);
        let r = d.to_owned();
        proof {
            assert(r@ =~= spec_decimal(n as nat));
        }
        r
    } else {
        let q = decimal_string(n / 10);
        let d = digit_str((n % 10) as u8);
        let r = q.concat(d);
        proof {
            assert(r@ =~= spec_decimal(n as nat));
        }
        r
    }
}

impl ErrorMessage {
    /// The message text of this error, exactly as `spec_message` states it.
    pub fn to_str(&self) -> (r: String)
        ensures
            r@ == spec_message(*self),
    {
        match self {
            ErrorMessage::ServerError => "Server Error. Please try again later".to_owned(),
            ErrorMessage::WrongCredentials => "Email or password are wrong".to_owned(),
            ErrorMessage::EmailExist => "Email already exists in the database".to_owned(),
            ErrorMessage::UserNoLongerExists => {
                "User belonging to this token no longer exists".to_owned()
            },
            ErrorMessage::EmptyPassword => "Password should not be empty".to_owned(),
            ErrorMessage::HashingError => "Error while hashing password".to_owned(),
            ErrorMessage::InvalidHashFormat => "Invalid passowrd hash format".to_owned(),
            ErrorMessage::ExceedMaxPasswordLength(max_length) => {
                let prefix = "Password should not exceed ".to_owned();
                let r = prefix.concat(decimal_string(*max_length).as_str()).concat(" characters");
                proof {
                    assert(r@ =~= spec_message(*self));
                }
                r
            },
            ErrorMessage::EmptySubject => "Token subject should not be empty".to_owned(),
            ErrorMessage::InvalidToken => "Invalid token".to_owned(),
            ErrorMessage::TokenNotProvided => "Token not provided".to_owned(),
            ErrorMessage::PermissionsDenied => "Not allowed to perform this action".to_owned(),
        }
    }

    /// The HTTP status this error maps to at the outermost boundary.
    pub fn status_code(&self) -> (r: u16)
        ensures
            r == spec_status(*self),
    {
        match self {
            ErrorMessage::InvalidToken => 401,
            ErrorMessage::TokenNotProvided => 401,
            ErrorMessage::UserNoLongerExists => 401,
            ErrorMessage::WrongCredentials => 401,
            ErrorMessage::PermissionsDenied => 403,
            ErrorMessage::EmailExist => 409,
            ErrorMessage::EmptyPassword => 400,
            ErrorMessage::EmptySubject => 400,
            ErrorMessage::ExceedMaxPasswordLength(_) => 400,
            ErrorMessage::InvalidHashFormat => 400,
            ErrorMessage::HashingError => 500,
            ErrorMessage::ServerError => 500,
        }
    }

    /// This error as the `HttpError` the outermost boundary replies with.
    pub fn to_http_error(&self) -> (r: HttpError)
        ensures
            r.message@ == spec_message(*self),
            r.status == spec_status(*self),
    {
        HttpError { message: self.to_str(), status: self.status_code() }
    }
}

/// An error ready to leave the service: a message and an HTTP status.
#[derive(Debug, Clone)]
pub struct HttpError {
    pub message: String,
    pub status: u16,
}

/// The status an error actually leaves with. The boundary speaks a closed
/// set of statuses; carrying any other number is a programming-contract
/// violation and collapses to 500.
pub open spec fn spec_wire_status(status: u16) -> u16 {
    if status == 400 || status == 401 || status == 403 || status == 404 || status == 409
        || status == 500 {
        status
    } else {
        500
    }
}

impl HttpError {
    pub fn new(message: String, status: u16) -> (r: HttpError)
        ensures
            r.message == message,
            r.status == status,
    {
        HttpError { message, status }
    }

    pub fn server_error(message: String) -> (r: HttpError)
        ensures
            r.message == message,
            r.status == 500,
    {
        HttpError { message, status: 500 }
    }

    pub fn bad_request(message: String) -> (r: HttpError)
        ensures
            r.message == message,
            r.status == 400,
    {
        HttpError { message, status: 400 }
    }

    pub fn unique_constraint_violation(message: String) -> (r: HttpError)
        ensures
            r.message == message,
            r.status == 409,
    {
        HttpError { message, status: 409 }
    }

    pub fn unauthorized(message: String) -> (r: HttpError)
        ensures
            r.message == message,
            r.status == 401,
    {
        HttpError { message, status: 401 }
    }

    pub fn not_found(message: String) -> (r: HttpError)
        ensures
            r.message == message,
            r.status == 404,
    {
        HttpError { message, status: 404 }
    }

    /// The status this error leaves the service with: its own where that is
    /// one of the boundary's closed set, 500 otherwise.
    pub fn wire_status(&self) -> (r: u16)
        ensures
            r == spec_wire_status(self.status),
    {
        match self.status {
            400 => 400,
            401 => 401,
            403 => 403,
            404 => 404,
            409 => 409,
            _ => 500,
        }
    }

    /// The body the outermost boundary serializes for this error: `"error"`
    /// for an internal failure — a 500, or any status outside the closed
    /// set, which leaves as a 500 — and `"fail"` for everything else, with
    /// the message passed through unchanged.
    pub fn to_response(self) -> (r: Response)
        ensures
            r.message@ == self.message@,
            spec_wire_status(self.status) == 500 ==> r.status@ == "error"@,
            spec_wire_status(self.status) != 500 ==> r.status@ == "fail"@,
    {
        if self.wire_status() == 500 {
            Response { status: "error", message: self.message }
        } else {
            Response { status: "fail", message: self.message }
        }
    }
}

} // verus!
