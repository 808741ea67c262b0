use vstd::prelude::*;
use vstd::string::StringExecFns;

verus! {

/// Every failure that a request to the service can end in. Each variant but
/// `NotFound` carries the details, which are logged and never sent out.
#[derive(Debug)]
pub enum Error {
    /// What was asked for does not exist.
    NotFound,
    Database(String),
    Email(String),
    Template(String),
    Anyhow(String),
}

impl Error {
    /// The HTTP status code that answers the error: 404 where something was
    /// not found, 500 otherwise.
    pub fn status_code(&self) -> (code: u16)
        ensures
            code == (if *self is NotFound {
                404u16
            } else {
                500u16
            }),
    {
        match self {
            Error::NotFound => 404,
            _ => 500,
        }
    }

    /// What a client is told of the error: never the details.
    pub open spec fn generic_text(self) -> Seq<char> {
        match self {
            Error::NotFound => "request path not found"@,
            Error::Database(_) => "an error occurred with the database"@,
            Error::Email(_) => "an error occurred with the email system"@,
            Error::Template(_) => "an error occurred with the template system"@,
            Error::Anyhow(_) => "an internal server error occurred"@,
        }
    }

    /// A generic description of the error, which leaks no internal detail to
    /// the client.
    pub fn to_generic_string(&self) -> (text: String)
        ensures
            text@ == self.generic_text(),
    {
        match self {
            Error::NotFound => "request path not found".to_owned(),
            Error::Database(_) => "an error occurred with the database".to_owned(),
            Error::Email(_) => "an error occurred with the email system".to_owned(),
            Error::Template(_) => "an error occurred with the template system".to_owned(),
            Error::Anyhow(_) => "an internal server error occurred".to_owned(),
        }
    }

    /// The error with its details, as it is logged.
    pub open spec fn full_text(self) -> Seq<char> {
        match self {
            Error::NotFound => "request path not found"@,
            Error::Database(details) => "database error: "@ + details@,
            Error::Email(details) => "email error: "@ + details@,
            Error::Template(details) => "template error: "@ + details@,
            Error::Anyhow(details) => "internal server error: "@ + details@,
        }
    }

    /// The error with its details, as it is logged.
    pub fn to_string(&self) -> (text: String)
        ensures
            text@ == self.full_text(),
    {
        match self {
            Error::NotFound => "request path not found".to_owned(),
            Error::Database(details) => "database error: ".to_owned().concat(details.as_str()),
            Error::Email(details) => "email error: ".to_owned().concat(details.as_str()),
            Error::Template(details) => "template error: ".to_owned().concat(details.as_str()),
            Error::Anyhow(details) => "internal server error: ".to_owned().concat(
                details.as_str(),
            ),
        }
    }
}

/// A failure of the service's API, with the context in which it came up.
#[derive(Debug)]
pub enum ApiError {
    Database { context: String },
    Template { context: String },
    Email { context: String },
    Api { context: String },
}

/// The body of the response that reports an `ApiError`.
#[derive(Debug)]
pub struct JsonErrorResponse {
    pub error: String,
    pub context: String,
}

impl ApiError {
    /// The context of the error, whatever its kind.
    pub open spec fn context_spec(self) -> String {
        match self {
            ApiError::Database { context } => context,
            ApiError::Template { context } => context,
            ApiError::Email { context } => context,
            ApiError::Api { context } => context,
        }
    }

    /// The name of the kind of error.
    pub open spec fn kind_text(self) -> Seq<char> {
        match self {
            ApiError::Database { .. } => "Database Error"@,
            ApiError::Template { .. } => "Template Error"@,
            ApiError::Email { .. } => "Email Error"@,
            ApiError::Api { .. } => "Api Error"@,
        }
    }

    /// The context of the error, whatever its kind.
    pub fn get_context(&self) -> (context: Option<String>)
        ensures
            context == Some(self.context_spec()),
    {
        match self {
            ApiError::Database { context } => Some(context.clone()),
            ApiError::Template { context } => Some(context.clone()),
            ApiError::Email { context } => Some(context.clone()),
            ApiError::Api { context } => Some(context.clone()),
        }
    }

    /// The name of the kind of error.
    pub fn to_string(&self) -> (text: String)
        ensures
            text@ == self.kind_text(),
    {
        match self {
            ApiError::Database { .. } => "Database Error".to_owned(),
            ApiError::Template { .. } => "Template Error".to_owned(),
            ApiError::Email { .. } => "Email Error".to_owned(),
            ApiError::Api { .. } => "Api Error".to_owned(),
        }
    }

    /// The HTTP status code that answers the error: always 500.
    pub fn status_code(&self) -> (code: u16)
        ensures
            code == 500,
    {
        500
    }

    /// The body of the response that reports the error: the name of its kind
    /// and its context.
    pub fn error_response(&self) -> (body: JsonErrorResponse)
        ensures
            body.error@ == self.kind_text(),
            body.context == self.context_spec(),
    {
        let context = match self.get_context() {
            Some(context) => context,
            None => String::new(),
        };
        JsonErrorResponse { error: self.to_string(), context }
    }
}

} // verus!
