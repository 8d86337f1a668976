use vstd::prelude::*;

verus! {

/// `serde_json::Error`, carried through the library as an opaque value.
#[verifier::external_type_specification]
#[verifier::external_body]
pub struct ExJsonError(serde_json::Error);

/// `reqwest::Error`, carried through the library as an opaque value.
#[verifier::external_type_specification]
#[verifier::external_body]
pub struct ExReqwestError(reqwest::Error);

/// The error type of the bridge.
#[derive(Debug)]
pub enum AppError {
    SerdeJson(serde_json::Error),
    Reqwest(reqwest::Error),
    BadRequest(String),
}

impl AppError {
    /// The error's text: the wrapped error's own text for `SerdeJson` and
    /// `Reqwest`, and `"BadRequest: "` followed by the message for `BadRequest`.
    pub fn message(&self) -> (r: String)
        ensures
            self matches AppError::BadRequest(m) ==> r@ == "BadRequest: "@ + m@,
            self matches AppError::SerdeJson(e) ==> vstd::string::to_string_from_display_ensures::<serde_json::Error>(e, r),
            self matches AppError::Reqwest(e) ==> vstd::string::to_string_from_display_ensures::<reqwest::Error>(e, r),
    {
        match self {
            AppError::SerdeJson(e) => e.to_string(),
            AppError::Reqwest(e) => e.to_string(),
            AppError::BadRequest(m) => String::from_str("BadRequest: ").concat(m.as_str()),
        }
    }
}

/// Fails with `BadRequest(err_msg)` unless `c` holds.
pub fn require(c: bool, err_msg: String) -> (r: Result<(), AppError>)
    ensures
        c ==> r is Ok,
        !c ==> (r matches Err(AppError::BadRequest(m)) && m == err_msg),
{
    if c {
        Ok(())
    } else {
        Err(AppError::BadRequest(err_msg))
    }
}

impl From<&str> for AppError {
    fn from(msg: &str) -> (r: AppError)
        ensures
            r matches AppError::BadRequest(m) && m@ == msg@,
    {
        AppError::BadRequest(String::from_str(msg))
    }
}

impl vstd::std_specs::convert::FromSpecImpl<&str> for AppError {
    open spec fn obeys_from_spec() -> bool {
        false
    }

    open spec fn from_spec(msg: &str) -> AppError {
        AppError::BadRequest(arbitrary())
    }
}

impl From<serde_json::Error> for AppError {
    fn from(e: serde_json::Error) -> (r: AppError) {
        AppError::SerdeJson(e)
    }
}

impl vstd::std_specs::convert::FromSpecImpl<serde_json::Error> for AppError {
    open spec fn obeys_from_spec() -> bool {
        true
    }

    open spec fn from_spec(e: serde_json::Error) -> AppError {
        AppError::SerdeJson(e)
    }
}

impl From<reqwest::Error> for AppError {
    fn from(e: reqwest::Error) -> (r: AppError) {
        AppError::Reqwest(e)
    }
}

impl vstd::std_specs::convert::FromSpecImpl<reqwest::Error> for AppError {
    open spec fn obeys_from_spec() -> bool {
        true
    }

    open spec fn from_spec(e: reqwest::Error) -> AppError {
        AppError::Reqwest(e)
    }
}

} // verus!
