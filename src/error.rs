//! The error taxonomy shared by every fallible operation, and its mapping to
//! HTTP status codes.

use vstd::prelude::*;

verus! {

/// A validation failure, with a description for humans.
#[derive(Debug)]
pub struct ValidationError(pub String);

#[derive(Debug, Clone, Copy, PartialEq, Eq, Structural)]
pub enum DatabaseError {
    Arbitrary,
}

#[derive(Debug, Clone, Copy, PartialEq, Eq, Structural)]
pub enum UserError {
    UserNotFound,
    UserAlreadyExists,
    InvalidCredentials,
    InvalidUsername,
    InvalidPassword,
    InvalidPublicKey,
}

#[derive(Debug, Clone, Copy, PartialEq, Eq, Structural)]
pub enum SessionError {
    SessionNotFound,
}

#[derive(Debug, Clone, Copy, PartialEq, Eq, Structural)]
pub enum CryptographyError {
    InvalidSignature,
}

#[derive(Debug, Clone, Copy, PartialEq, Eq, Structural)]
pub enum StampError {
    InvalidStamp,
    InvalidTimePeriod,
    InvalidProofOfWork,
    StampRequestNotFound,
    StampRequestExpired,
}

/// Every error that an operation of the library can report.
#[derive(Debug)]
pub enum SmError {
    Database(DatabaseError),
    User(UserError),
    Session(SessionError),
    Validation(ValidationError),
    Cryptography(CryptographyError),
    Stamp(StampError),
}

pub open spec fn user_error_text(e: UserError) -> Seq<char> {
    match e {
        UserError::UserNotFound => "User not found"@,
        UserError::UserAlreadyExists => "User already exists"@,
        UserError::InvalidCredentials => "Invalid username or password"@,
        UserError::InvalidUsername => "Username is invalid"@,
        UserError::InvalidPassword => "Password is invalid"@,
        UserError::InvalidPublicKey => "Public key is invalid"@,
    }
}

pub open spec fn stamp_error_text(e: StampError) -> Seq<char> {
    match e {
        StampError::InvalidStamp => "Invalid stamp"@,
        StampError::InvalidTimePeriod => "Out of time period"@,
        StampError::InvalidProofOfWork => "Invalid proof of work"@,
        StampError::StampRequestNotFound => "Stamp request not found"@,
        StampError::StampRequestExpired => "Stamp request expired"@,
    }
}

/// The human-readable text of an error: its category, then its detail.
pub open spec fn sm_error_text(e: SmError) -> Seq<char> {
    match e {
        SmError::Database(_) => "Database error: "@ + "Database error"@,
        SmError::User(u) => "User error: "@ + user_error_text(u),
        SmError::Session(_) => "Session error: "@ + "Non-expired session not found"@,
        SmError::Validation(v) => "Validation error: "@ + v.0@,
        SmError::Cryptography(_) => "Cryptography error: "@ + "Invalid signature"@,
        SmError::Stamp(s) => "Stamp error: "@ + stamp_error_text(s),
    }
}

/// The HTTP status that reports an error.
pub open spec fn status_of(e: SmError) -> u16 {
    match e {
        SmError::Database(_) => 500,
        SmError::User(u) => match u {
            UserError::UserNotFound => 404,
            UserError::UserAlreadyExists => 409,
            UserError::InvalidCredentials => 401,
            _ => 400,
        },
        SmError::Validation(_) => 400,
        SmError::Cryptography(_) => 400,
        SmError::Session(_) => 401,
        SmError::Stamp(_) => 401,
    }
}

impl UserError {
    pub fn message(&self) -> (r: String)
        ensures
            r@ == user_error_text(*self),
    {
        match self {
            UserError::UserNotFound => String::from_str("User not found"),
            UserError::UserAlreadyExists => String::from_str("User already exists"),
            UserError::InvalidCredentials => String::from_str("Invalid username or password"),
            UserError::InvalidUsername => String::from_str("Username is invalid"),
            UserError::InvalidPassword => String::from_str("Password is invalid"),
            UserError::InvalidPublicKey => String::from_str("Public key is invalid"),
        }
    }
}

impl StampError {
    pub fn message(&self) -> (r: String)
        ensures
            r@ == stamp_error_text(*self),
    {
        match self {
            StampError::InvalidStamp => String::from_str("Invalid stamp"),
            StampError::InvalidTimePeriod => String::from_str("Out of time period"),
            StampError::InvalidProofOfWork => String::from_str("Invalid proof of work"),
            StampError::StampRequestNotFound => String::from_str("Stamp request not found"),
            StampError::StampRequestExpired => String::from_str("Stamp request expired"),
        }
    }
}

impl SmError {
    /// The text that reports this error to a client.
    pub fn message(&self) -> (r: String)
        ensures
            r@ == sm_error_text(*self),
    {
        match self {
            SmError::Database(_) => {
                let mut r = String::from_str("Database error: ");
                r.append("Database error");
                r
            },
            SmError::User(u) => {
                let mut r = String::from_str("User error: ");
                let detail = u.message();
                r.append(detail.as_str());
                r
            },
            SmError::Session(_) => {
                let mut r = String::from_str("Session error: ");
                r.append("Non-expired session not found");
                r
            },
            SmError::Validation(v) => {
                let mut r = String::from_str("Validation error: ");
                r.append(v.0.as_str());
                r
            },
            SmError::Cryptography(_) => {
                let mut r = String::from_str("Cryptography error: ");
                r.append("Invalid signature");
                r
            },
            SmError::Stamp(s) => {
                let mut r = String::from_str("Stamp error: ");
                let detail = s.message();
                r.append(detail.as_str());
                r
            },
        }
    }
}

/// An error as the HTTP layer reports it.
#[derive(Debug)]
pub struct ApiError(pub SmError);

impl ApiError {
    /// The status code of the response that reports this error.
    pub fn status_code(&self) -> (r: u16)
        ensures
            r == status_of(self.0),
    {
        match &self.0 {
            SmError::Database(_) => 500,
            SmError::User(u) => match u {
                UserError::UserNotFound => 404,
                UserError::UserAlreadyExists => 409,
                UserError::InvalidCredentials => 401,
                UserError::InvalidUsername => 400,
                UserError::InvalidPassword => 400,
                UserError::InvalidPublicKey => 400,
            },
            SmError::Validation(_) => 400,
            SmError::Cryptography(_) => 400,
            SmError::Session(_) => 401,
            SmError::Stamp(_) => 401,
        }
    }

    /// The body of the response that reports this error.
    pub fn body(&self) -> (r: String)
        ensures
            r@ == sm_error_text(self.0),
    {
        self.0.message()
    }
}

impl From<SmError> for ApiError {
    fn from(e: SmError) -> (r: ApiError)
        ensures
            r == ApiError(e),
    {
        ApiError(e)
    }
}

impl vstd::std_specs::convert::FromSpecImpl<SmError> for ApiError {
    open spec fn obeys_from_spec() -> bool {
        true
    }

    open spec fn from_spec(e: SmError) -> ApiError {
        ApiError(e)
    }
}

impl From<ValidationError> for ApiError {
    fn from(e: ValidationError) -> (r: ApiError)
        ensures
            r == ApiError(SmError::Validation(e)),
    {
        ApiError(SmError::Validation(e))
    }
}

impl vstd::std_specs::convert::FromSpecImpl<ValidationError> for ApiError {
    open spec fn obeys_from_spec() -> bool {
        true
    }

    open spec fn from_spec(e: ValidationError) -> ApiError {
        ApiError(SmError::Validation(e))
    }
}

impl From<UserError> for ApiError {
    fn from(e: UserError) -> (r: ApiError)
        ensures
            r == ApiError(SmError::User(e)),
    {
        ApiError(SmError::User(e))
    }
}

impl vstd::std_specs::convert::FromSpecImpl<UserError> for ApiError {
    open spec fn obeys_from_spec() -> bool {
        true
    }

    open spec fn from_spec(e: UserError) -> ApiError {
        ApiError(SmError::User(e))
    }
}

} // verus!
