//! Standard shapes of the tool's responses, so that every command answers
//! in the same structure.
use vstd::prelude::*;
use vstd::string::to_string_from_display_ensures;

verus! {

/// Whether an operation succeeded.
#[derive(Clone, Copy, Debug, PartialEq, Eq, Structural)]
pub enum ResponseStatus {
    Success,
    Error,
}

impl ResponseStatus {
    /// The status as text: `success` or `error`.
    pub fn display(&self) -> (s: String)
        ensures
            s@ == (match *self {
                ResponseStatus::Success => "success"@,
                ResponseStatus::Error => "error"@,
            }),
    {
        match self {
            ResponseStatus::Success => String::from_str("success"),
            ResponseStatus::Error => String::from_str("error"),
        }
    }
}

/// A response carrying data on success or an error text on failure.
#[derive(Debug, Clone)]
pub struct ApiResponse<T> {
    pub status: ResponseStatus,
    pub data: Option<T>,
    pub error: Option<String>,
    pub message: String,
}

impl<T> ApiResponse<T> {
    /// A successful response carrying `data`.
    pub fn success(data: T, message: &str) -> (r: Self)
        ensures
            r.status == ResponseStatus::Success,
            r.data == Some(data),
            r.error is None,
            r.message@ == message@,
    {
        ApiResponse { status: ResponseStatus::Success, data: Some(data), error: None, message: message.to_owned() }
    }

    /// A failed response carrying the error text `error`.
    pub fn error(error: &str, message: &str) -> (r: Self)
        ensures
            r.status == ResponseStatus::Error,
            r.data is None,
            r.error matches Some(e) && e@ == error@,
            r.message@ == message@,
    {
        ApiResponse {
            status: ResponseStatus::Error,
            data: None,
            error: Some(error.to_owned()),
            message: message.to_owned(),
        }
    }
}

impl<T: std::fmt::Display> ApiResponse<T> {
    /// The response for the user: `✅ message` and the data on its own line
    /// (shown through its `Display`), or `❌ message` and the error (or
    /// `Unknown error`) on its own line.
    pub fn display(&self) -> (s: String)
        requires
            self.status == ResponseStatus::Success ==> self.data is Some,
        ensures
            self.status == ResponseStatus::Success ==> exists|shown: String|
                to_string_from_display_ensures::<T>(&self.data->Some_0, shown) && s@ == "✅ "@
                    + self.message@ + "\nData: "@ + shown@,
            self.status == ResponseStatus::Error ==> s@ == "❌ "@ + self.message@ + "\nError: "@ + (
            match self.error {
                Some(e) => e@,
                None => "Unknown error"@,
            }),
    {
        match self.status {
            ResponseStatus::Success => {
                let shown = match &self.data {
                    Some(d) => d.to_string(),
                    None => String::new(),
                };
                let s = String::from_str("✅ ");
                let s = s.concat(self.message.as_str());
                let s = s.concat("\nData: ");
                s.concat(shown.as_str())
            },
            ResponseStatus::Error => {
                let s = String::from_str("❌ ");
                let s = s.concat(self.message.as_str());
                let s = s.concat("\nError: ");
                match &self.error {
                    Some(e) => s.concat(e.as_str()),
                    None => s.concat("Unknown error"),
                }
            },
        }
    }
}

/// A response for operations without data.
#[derive(Debug, Clone)]
pub struct SimpleResponse {
    pub status: ResponseStatus,
    pub message: String,
    pub error: Option<String>,
}

impl SimpleResponse {
    /// A successful response.
    pub fn success(message: &str) -> (r: Self)
        ensures
            r.status == ResponseStatus::Success,
            r.message@ == message@,
            r.error is None,
    {
        SimpleResponse { status: ResponseStatus::Success, message: message.to_owned(), error: None }
    }

    /// A failed response; the message is also the error text.
    pub fn error(message: &str) -> (r: Self)
        ensures
            r.status == ResponseStatus::Error,
            r.message@ == message@,
            r.error matches Some(e) && e@ == message@,
    {
        SimpleResponse { status: ResponseStatus::Error, message: message.to_owned(), error: Some(message.to_owned()) }
    }

    /// The response for the user: `✅ message` or `❌ message`.
    pub fn display(&self) -> (s: String)
        ensures
            s@ == (match self.status {
                ResponseStatus::Success => "✅ "@,
                ResponseStatus::Error => "❌ "@,
            }) + self.message@,
    {
        match self.status {
            ResponseStatus::Success => String::from_str("✅ ").concat(self.message.as_str()),
            ResponseStatus::Error => String::from_str("❌ ").concat(self.message.as_str()),
        }
    }
}

/// Health data of the health check.
#[derive(Debug, Clone)]
pub struct HealthStatus {
    pub status: String,
    pub version: String,
    pub service: String,
}

impl HealthStatus {
    /// `service: <service>, version: <version>, status: <status>`.
    pub fn display(&self) -> (s: String)
        ensures
            s@ == "service: "@ + self.service@ + ", version: "@ + self.version@ + ", status: "@
                + self.status@,
    {
        String::from_str("service: ").concat(self.service.as_str()).concat(", version: ").concat(
            self.version.as_str(),
        ).concat(", status: ").concat(self.status.as_str())
    }
}

} // verus!
