//! The library's error taxonomy.

use vstd::prelude::*;
use vstd::string::*;

verus! {

/// A configuration value that is missing, malformed or unreadable.
#[derive(Debug)]
pub enum ConfigError {
    Missing { key: String },
    Invalid { key: String, value: String },
    Parse(String),
    FileNotFound { path: String },
}

/// Every failure the library reports.
#[derive(Debug)]
pub enum Error {
    Config(ConfigError),
    Io(String),
    Http(String),
    Container(String),
    Job(String),
    Auth(String),
    Validation(String),
    Internal(String),
}

/// `prefix` followed by `rest`.
pub fn joined(prefix: &str, rest: &str) -> (r: String)
    ensures
        r@ == prefix@ + rest@,
{
    let mut s = String::from_str(prefix);
    s.append(rest);
    s
}

impl ConfigError {
    /// The human-readable description of this error.
    pub open spec fn spec_message(&self) -> Seq<char> {
        match self {
            ConfigError::Missing { key } => "Missing configuration value: "@ + key@,
            ConfigError::Invalid { key, value } => "Invalid configuration value for "@ + key@
                + ": "@ + value@,
            ConfigError::Parse(m) => "Configuration parse error: "@ + m@,
            ConfigError::FileNotFound { path } => "File not found: "@ + path@,
        }
    }

    pub fn message(&self) -> (r: String)
        ensures
            r@ == self.spec_message(),
    {
        match self {
            ConfigError::Missing { key } => joined("Missing configuration value: ", key.as_str()),
            ConfigError::Invalid { key, value } => {
                let mut s = joined("Invalid configuration value for ", key.as_str());
                s.append(": ");
                s.append(value.as_str());
                s
            },
            ConfigError::Parse(m) => joined("Configuration parse error: ", m.as_str()),
            ConfigError::FileNotFound { path } => joined("File not found: ", path.as_str()),
        }
    }
}

impl Error {
    pub fn config_missing(key: &str) -> (r: Error)
        ensures
            r is Config && r->Config_0 is Missing && r->Config_0->Missing_key@ == key@,
    {
        Error::Config(ConfigError::Missing { key: String::from_str(key) })
    }

    pub fn config_invalid(key: &str, value: &str) -> (r: Error)
        ensures
            r is Config && r->Config_0 is Invalid && r->Config_0->Invalid_key@ == key@
                && r->Config_0->Invalid_value@ == value@,
    {
        Error::Config(
            ConfigError::Invalid { key: String::from_str(key), value: String::from_str(value) },
        )
    }

    pub fn http(msg: &str) -> (r: Error)
        ensures
            r is Http && r->Http_0@ == msg@,
    {
        Error::Http(String::from_str(msg))
    }

    pub fn container(msg: &str) -> (r: Error)
        ensures
            r is Container && r->Container_0@ == msg@,
    {
        Error::Container(String::from_str(msg))
    }

    pub fn job(msg: &str) -> (r: Error)
        ensures
            r is Job && r->Job_0@ == msg@,
    {
        Error::Job(String::from_str(msg))
    }

    pub fn auth(msg: &str) -> (r: Error)
        ensures
            r is Auth && r->Auth_0@ == msg@,
    {
        Error::Auth(String::from_str(msg))
    }

    pub fn validation(msg: &str) -> (r: Error)
        ensures
            r is Validation && r->Validation_0@ == msg@,
    {
        Error::Validation(String::from_str(msg))
    }

    pub fn internal(msg: &str) -> (r: Error)
        ensures
            r is Internal && r->Internal_0@ == msg@,
    {
        Error::Internal(String::from_str(msg))
    }

    /// The human-readable description of this error.
    pub open spec fn spec_message(&self) -> Seq<char> {
        match self {
            Error::Config(e) => "Configuration error: "@ + e.spec_message(),
            Error::Io(m) => "IO error: "@ + m@,
            Error::Http(m) => "HTTP error: "@ + m@,
            Error::Container(m) => "Container error: "@ + m@,
            Error::Job(m) => "Job error: "@ + m@,
            Error::Auth(m) => "Authentication error: "@ + m@,
            Error::Validation(m) => "Validation error: "@ + m@,
            Error::Internal(m) => "Internal error: "@ + m@,
        }
    }

    pub fn message(&self) -> (r: String)
        ensures
            r@ == self.spec_message(),
    {
        match self {
            Error::Config(e) => {
                let inner = e.message();
                joined("Configuration error: ", inner.as_str())
            },
            Error::Io(m) => joined("IO error: ", m.as_str()),
            Error::Http(m) => joined("HTTP error: ", m.as_str()),
            Error::Container(m) => joined("Container error: ", m.as_str()),
            Error::Job(m) => joined("Job error: ", m.as_str()),
            Error::Auth(m) => joined("Authentication error: ", m.as_str()),
            Error::Validation(m) => joined("Validation error: ", m.as_str()),
            Error::Internal(m) => joined("Internal error: ", m.as_str()),
        }
    }

    /// The machine-readable code that an API envelope carries for this error.
    pub open spec fn spec_code(&self) -> Seq<char> {
        match self {
            Error::Config(_) => "CONFIG_ERROR"@,
            Error::Io(_) => "IO_ERROR"@,
            Error::Http(_) => "HTTP_ERROR"@,
            Error::Container(_) => "CONTAINER_ERROR"@,
            Error::Job(_) => "JOB_ERROR"@,
            Error::Auth(_) => "AUTH_ERROR"@,
            Error::Validation(_) => "VALIDATION_ERROR"@,
            Error::Internal(_) => "INTERNAL_ERROR"@,
        }
    }

    pub fn code(&self) -> (r: String)
        ensures
            r@ == self.spec_code(),
    {
        match self {
            Error::Config(_) => String::from_str("CONFIG_ERROR"),
            Error::Io(_) => String::from_str("IO_ERROR"),
            Error::Http(_) => String::from_str("HTTP_ERROR"),
            Error::Container(_) => String::from_str("CONTAINER_ERROR"),
            Error::Job(_) => String::from_str("JOB_ERROR"),
            Error::Auth(_) => String::from_str("AUTH_ERROR"),
            Error::Validation(_) => String::from_str("VALIDATION_ERROR"),
            Error::Internal(_) => String::from_str("INTERNAL_ERROR"),
        }
    }
}

} // verus!
