use vstd::prelude::*;

verus! {

/// The failures of one request against the host's REST API. Causes that come
/// from the transport or the JSON decoder arrive as their rendered messages.
#[derive(Debug)]
pub enum HttpError {
    /// The API answered with a status outside the 2xx range.
    Unsuccessful(u16),
    /// Neither a group nor a user is configured, so no listing can be scoped.
    Config,
    /// The transport failed before a status was received.
    Hyper(String),
    /// The request could not even be built.
    HyperHttp(String),
    /// The response body was not the JSON shape that was expected.
    Json(String),
}

impl HttpError {
    /// A short label for the error kind.
    pub fn description(&self) -> (r: &'static str)
        ensures
            r@ == match self {
                HttpError::Unsuccessful(_) => "unsuccessful request"@,
                HttpError::Config => "invalid config provided - no group"@,
                HttpError::Hyper(_) => "hyper error"@,
                HttpError::HyperHttp(_) => "hyper http error"@,
                HttpError::Json(_) => "serde json error"@,
            },
    {
        match self {
            HttpError::Unsuccessful(_) => "unsuccessful request",
            HttpError::Config => "invalid config provided - no group",
            HttpError::Hyper(_) => "hyper error",
            HttpError::HyperHttp(_) => "hyper http error",
            HttpError::Json(_) => "serde json error",
        }
    }
}

/// The failures of the surrounding application: reading the configuration,
/// driving git, or a request failure bubbled up from the API client.
#[derive(Debug)]
pub enum AppError {
    IO(String),
    TomlParse(String),
    Git(String),
    Http(HttpError),
}

impl AppError {
    /// A short label for the error kind.
    pub fn description(&self) -> (r: &'static str)
        ensures
            r@ == match self {
                AppError::IO(_) => "io error"@,
                AppError::TomlParse(_) => "toml parse error"@,
                AppError::Git(_) => "git error"@,
                AppError::Http(_) => "http error"@,
            },
    {
        match self {
            AppError::IO(_) => "io error",
            AppError::TomlParse(_) => "toml parse error",
            AppError::Git(_) => "git error",
            AppError::Http(_) => "http error",
        }
    }
}

impl From<HttpError> for AppError {
    fn from(e: HttpError) -> (r: Self) {
        AppError::Http(e)
    }
}

impl vstd::std_specs::convert::FromSpecImpl<HttpError> for AppError {
    open spec fn obeys_from_spec() -> bool {
        true
    }

    open spec fn from_spec(e: HttpError) -> Self {
        AppError::Http(e)
    }
}

} // verus!
