use vstd::prelude::*;
use vstd::std_specs::convert::FromSpecImpl;

verus! {

/// The request cannot be served as it was made.
#[derive(Debug)]
pub struct BadRequest {}

/// What was asked for does not exist.
#[derive(Debug)]
pub struct NotFound {}

impl BadRequest {
    pub fn message(&self) -> (text: String)
        ensures
            text@ == "Bad Request"@,
    {
        "Bad Request".to_owned()
    }
}

impl NotFound {
    pub fn message(&self) -> (text: String)
        ensures
            text@ == "Not found"@,
    {
        "Not found".to_owned()
    }
}

/// What an endpoint fails with.
#[derive(Debug)]
pub enum AppError {
    NotFound(NotFound),
    BadRequest(BadRequest),
    /// A backing service failed; the text is its error.
    InternalServerError(String),
    /// A task of the server did not run to its end; the text is its error.
    RunSyncTask(String),
}

impl AppError {
    /// The HTTP status of the error.
    pub open spec fn status(&self) -> u16 {
        match *self {
            AppError::BadRequest(_) => 400,
            AppError::NotFound(_) => 404,
            AppError::InternalServerError(_) => 500,
            AppError::RunSyncTask(_) => 500,
        }
    }

    /// The code of the error in the body of the answer.
    pub open spec fn code(&self) -> u16 {
        match *self {
            AppError::BadRequest(_) => 40002,
            AppError::NotFound(_) => 40003,
            AppError::InternalServerError(_) => 5001,
            AppError::RunSyncTask(_) => 5005,
        }
    }

    /// The message of the error in the body of the answer.
    pub open spec fn text(&self) -> Seq<char> {
        match *self {
            AppError::BadRequest(_) => "Bad Request"@,
            AppError::NotFound(_) => "Not found"@,
            AppError::InternalServerError(text) => text@,
            AppError::RunSyncTask(text) => text@,
        }
    }

    /// The HTTP status and the code of the error.
    pub fn get_codes(&self) -> (codes: (u16, u16))
        ensures
            codes == (self.status(), self.code()),
    {
        match self {
            AppError::BadRequest(_) => (400, 40002),
            AppError::NotFound(_) => (404, 40003),
            AppError::InternalServerError(_) => (500, 5001),
            AppError::RunSyncTask(_) => (500, 5005),
        }
    }

    pub fn bad_request() -> (error: Self)
        ensures
            error == AppError::BadRequest(BadRequest {  }),
    {
        AppError::BadRequest(BadRequest {  })
    }

    pub fn not_found() -> (error: Self)
        ensures
            error == AppError::NotFound(NotFound {  }),
    {
        AppError::NotFound(NotFound {  })
    }

    pub fn message(&self) -> (text: String)
        ensures
            text@ == self.text(),
    {
        match self {
            AppError::BadRequest(inner) => inner.message(),
            AppError::NotFound(inner) => inner.message(),
            AppError::InternalServerError(text) => text.clone(),
            AppError::RunSyncTask(text) => text.clone(),
        }
    }
}

impl From<NotFound> for AppError {
    fn from(inner: NotFound) -> (error: Self) {
        AppError::NotFound(inner)
    }
}

impl FromSpecImpl<NotFound> for AppError {
    open spec fn obeys_from_spec() -> bool {
        true
    }

    open spec fn from_spec(inner: NotFound) -> Self {
        AppError::NotFound(inner)
    }
}

impl From<BadRequest> for AppError {
    fn from(inner: BadRequest) -> (error: Self) {
        AppError::BadRequest(inner)
    }
}

impl FromSpecImpl<BadRequest> for AppError {
    open spec fn obeys_from_spec() -> bool {
        true
    }

    open spec fn from_spec(inner: BadRequest) -> Self {
        AppError::BadRequest(inner)
    }
}

} // verus!
