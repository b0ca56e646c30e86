//! The closed set of failures, with their exit codes and recoverability.

use vstd::prelude::*;
use crate::text::{concat2, concat3, concat4, concat5, push_decimal, push_signed_decimal, decimal, signed_decimal};

verus! {

/// The messages of a causal chain, outermost cause first.
#[derive(Debug, Clone)]
pub struct Cause {
    pub messages: Vec<String>,
}

/// Every failure the tool can report.
#[derive(Debug, Clone)]
pub enum PyForgeError {
    FileError { message: String, source: Option<Cause> },
    DirectoryNotFound { path: String },
    PermissionDenied { path: String, reason: String },
    ProjectAlreadyExists { name: String, path: String },
    NotAPythonProject,
    InvalidConfig { file: String, source: Cause },
    CommandFailed { command: String, code: i32 },
    CommandNotFound { command: String },
    CommandTimeout { command: String, timeout: u64 },
    InvalidProjectName { name: String, reason: String },
    UnsupportedPythonVersion { version: String },
    TemplateNotFound { template: String },
    NetworkError { message: String, source: Option<Cause> },
    DownloadFailed { url: String, status: String },
    ParseError { file_type: String, message: String },
    InvalidJson { file: String, message: String },
    InvalidToml { file: String, message: String },
    Internal { message: String },
    UserCancelled,
    NotImplemented { feature: String },
}

/// The process exit code of each variant; the fields never matter.
pub open spec fn exit_code_of(e: PyForgeError) -> i32 {
    match e {
        PyForgeError::UserCancelled => 130,
        PyForgeError::CommandNotFound { .. } => 127,
        PyForgeError::PermissionDenied { .. } => 126,
        PyForgeError::FileError { .. } => 2,
        PyForgeError::InvalidProjectName { .. } => 64,
        PyForgeError::NotAPythonProject => 65,
        _ => 1,
    }
}

/// Failures worth retrying: network trouble, timeouts, and a user who backed out.
pub open spec fn recoverable(e: PyForgeError) -> bool {
    ||| e is NetworkError
    ||| e is CommandTimeout
    ||| e is UserCancelled
}

impl PyForgeError {
    /// Whether the failed operation may succeed when tried again.
    pub fn is_recoverable(&self) -> (r: bool)
        ensures
            r == recoverable(*self),
    {
        match self {
            PyForgeError::NetworkError { .. } | PyForgeError::CommandTimeout { .. }
            | PyForgeError::UserCancelled => true,
            _ => false,
        }
    }

    /// The exit code that the process ends with after reporting this error.
    pub fn exit_code(&self) -> (r: i32)
        ensures
            r == exit_code_of(*self),
    {
        match self {
            PyForgeError::UserCancelled => 130,
            PyForgeError::CommandNotFound { .. } => 127,
            PyForgeError::PermissionDenied { .. } => 126,
            PyForgeError::FileError { .. } => 2,
            PyForgeError::InvalidProjectName { .. } => 64,
            PyForgeError::NotAPythonProject => 65,
            _ => 1,
        }
    }
}

/// The one-line description of an error.
pub open spec fn message_of(e: PyForgeError) -> Seq<char> {
    match e {
        PyForgeError::FileError { message, .. } => "File error: "@ + message@,
        PyForgeError::DirectoryNotFound { path } => "Directory '"@ + path@ + "' not found"@,
        PyForgeError::PermissionDenied { path, reason } =>
            "Cannot write to '"@ + path@ + "': "@ + reason@,
        PyForgeError::ProjectAlreadyExists { name, path } =>
            "Project '"@ + name@ + "' already exists at '"@ + path@ + "'"@,
        PyForgeError::NotAPythonProject => "No valid Python project detected in current directory"@,
        PyForgeError::InvalidConfig { file, .. } => "Invalid configuration file: "@ + file@,
        PyForgeError::CommandFailed { command, code } =>
            "Command '"@ + command@ + "' failed with exit code "@ + signed_decimal(code as int),
        PyForgeError::CommandNotFound { command } => "Command not found: '"@ + command@ + "'"@,
        PyForgeError::CommandTimeout { command, timeout } =>
            "Timeout executing: '"@ + command@ + "' (expected "@ + decimal(timeout as nat) + "s)"@,
        PyForgeError::InvalidProjectName { name, reason } =>
            "Invalid project name: '"@ + name@ + "'. "@ + reason@,
        PyForgeError::UnsupportedPythonVersion { version } =>
            "Unsupported Python version: "@ + version@,
        PyForgeError::TemplateNotFound { template } => "Template '"@ + template@ + "' not found"@,
        PyForgeError::NetworkError { message, .. } => "Network error: "@ + message@,
        PyForgeError::DownloadFailed { url, status } =>
            "Failed to download from '"@ + url@ + "': "@ + status@,
        PyForgeError::ParseError { file_type, message } =>
            "Error parsing "@ + file_type@ + ": "@ + message@,
        PyForgeError::InvalidJson { file, message } =>
            "Invalid JSON in '"@ + file@ + "': "@ + message@,
        PyForgeError::InvalidToml { file, message } =>
            "Invalid TOML in '"@ + file@ + "': "@ + message@,
        PyForgeError::Internal { message } => "Internal error: "@ + message@,
        PyForgeError::UserCancelled => "Operation cancelled by user"@,
        PyForgeError::NotImplemented { feature } => "Feature not implemented: "@ + feature@,
    }
}

impl PyForgeError {
    /// The one-line description of this error.
    pub fn message(&self) -> (r: String)
        ensures
            r@ == message_of(*self),
    {
        match self {
            PyForgeError::FileError { message, .. } => concat2("File error: ", message.as_str()),
            PyForgeError::DirectoryNotFound { path } =>
                concat3("Directory '", path.as_str(), "' not found"),
            PyForgeError::PermissionDenied { path, reason } =>
                concat4("Cannot write to '", path.as_str(), "': ", reason.as_str()),
            PyForgeError::ProjectAlreadyExists { name, path } =>
                concat5("Project '", name.as_str(), "' already exists at '", path.as_str(), "'"),
            PyForgeError::NotAPythonProject =>
                String::from_str("No valid Python project detected in current directory"),
            PyForgeError::InvalidConfig { file, .. } =>
                concat2("Invalid configuration file: ", file.as_str()),
            PyForgeError::CommandFailed { command, code } => {
                let mut s = concat3("Command '", command.as_str(), "' failed with exit code ");
                push_signed_decimal(&mut s, *code);
                s
            },
            PyForgeError::CommandNotFound { command } =>
                concat3("Command not found: '", command.as_str(), "'"),
            PyForgeError::CommandTimeout { command, timeout } => {
                let mut s = concat3("Timeout executing: '", command.as_str(), "' (expected ");
                push_decimal(&mut s, *timeout);
                s.append("s)");
                s
            },
            PyForgeError::InvalidProjectName { name, reason } =>
                concat4("Invalid project name: '", name.as_str(), "'. ", reason.as_str()),
            PyForgeError::UnsupportedPythonVersion { version } =>
                concat2("Unsupported Python version: ", version.as_str()),
            PyForgeError::TemplateNotFound { template } =>
                concat3("Template '", template.as_str(), "' not found"),
            PyForgeError::NetworkError { message, .. } =>
                concat2("Network error: ", message.as_str()),
            PyForgeError::DownloadFailed { url, status } =>
                concat4("Failed to download from '", url.as_str(), "': ", status.as_str()),
            PyForgeError::ParseError { file_type, message } =>
                concat4("Error parsing ", file_type.as_str(), ": ", message.as_str()),
            PyForgeError::InvalidJson { file, message } =>
                concat4("Invalid JSON in '", file.as_str(), "': ", message.as_str()),
            PyForgeError::InvalidToml { file, message } =>
                concat4("Invalid TOML in '", file.as_str(), "': ", message.as_str()),
            PyForgeError::Internal { message } => concat2("Internal error: ", message.as_str()),
            PyForgeError::UserCancelled => String::from_str("Operation cancelled by user"),
            PyForgeError::NotImplemented { feature } =>
                concat2("Feature not implemented: ", feature.as_str()),
        }
    }
}

/// The kinds of low-level I/O failure that the taxonomy tells apart.
#[derive(Debug, Clone, Copy, PartialEq, Eq, Structural)]
pub enum IoFailure {
    NotFound,
    PermissionDenied,
    Other,
}

/// The structured-data formats whose parse failures are reported.
#[derive(Debug, Clone, Copy, PartialEq, Eq, Structural)]
pub enum DataFormat {
    Json,
    Toml,
}

/// The name under which a data format appears in messages.
pub open spec fn format_name(f: DataFormat) -> Seq<char> {
    match f {
        DataFormat::Json => "JSON"@,
        DataFormat::Toml => "TOML"@,
    }
}

impl PyForgeError {
    /// A file error with the failure that caused it.
    pub fn file_error(message: String, source: Cause) -> (r: PyForgeError)
        ensures
            r == (PyForgeError::FileError { message, source: Some(source) }),
    {
        PyForgeError::FileError { message, source: Some(source) }
    }

    /// A command that ran and exited with a failure code.
    pub fn command_failed(command: String, code: i32) -> (r: PyForgeError)
        ensures
            r == (PyForgeError::CommandFailed { command, code }),
    {
        PyForgeError::CommandFailed { command, code }
    }

    /// A network error, with the failure that caused it if known.
    pub fn network_error(message: String, source: Option<Cause>) -> (r: PyForgeError)
        ensures
            r == (PyForgeError::NetworkError { message, source }),
    {
        PyForgeError::NetworkError { message, source }
    }

    /// An internal error.
    pub fn internal(message: String) -> (r: PyForgeError)
        ensures
            r == (PyForgeError::Internal { message }),
    {
        PyForgeError::Internal { message }
    }

    /// Classifies a low-level I/O failure. The path of a refused access is not
    /// known at this level and is reported as "unknown".
    pub fn from_io(kind: IoFailure, cause: Cause) -> (r: PyForgeError)
        ensures
            kind == IoFailure::NotFound ==> (r matches PyForgeError::FileError { message, source }
                && message@ == "File or directory not found"@ && source == Some(cause)),
            kind == IoFailure::PermissionDenied ==> (r matches PyForgeError::PermissionDenied {
                path,
                reason,
            } && path@ == "unknown"@ && reason@ == "Permission denied"@),
            kind == IoFailure::Other ==> (r matches PyForgeError::FileError { message, source }
                && message@ == "I/O error"@ && source == Some(cause)),
    {
        match kind {
            IoFailure::NotFound => PyForgeError::FileError {
                message: String::from_str("File or directory not found"),
                source: Some(cause),
            },
            IoFailure::PermissionDenied => PyForgeError::PermissionDenied {
                path: String::from_str("unknown"),
                reason: String::from_str("Permission denied"),
            },
            IoFailure::Other => PyForgeError::FileError {
                message: String::from_str("I/O error"),
                source: Some(cause),
            },
        }
    }

    /// Classifies a failure of the network layer.
    pub fn from_network(cause: Cause) -> (r: PyForgeError)
        ensures
            r matches PyForgeError::NetworkError { message, source }
                && message@ == "HTTP connection error"@ && source == Some(cause),
    {
        PyForgeError::NetworkError {
            message: String::from_str("HTTP connection error"),
            source: Some(cause),
        }
    }

    /// Classifies a parse failure of structured data, tagged with its format.
    pub fn from_parse(format: DataFormat, message: String) -> (r: PyForgeError)
        ensures
            r matches PyForgeError::ParseError { file_type, message: m }
                && file_type@ == format_name(format) && m == message,
    {
        let file_type = match format {
            DataFormat::Json => String::from_str("JSON"),
            DataFormat::Toml => String::from_str("TOML"),
        };
        PyForgeError::ParseError { file_type, message }
    }
}

/// The position of an error's variant in the taxonomy, ignoring its fields.
pub open spec fn variant_of(e: PyForgeError) -> nat {
    match e {
        PyForgeError::FileError { .. } => 0,
        PyForgeError::DirectoryNotFound { .. } => 1,
        PyForgeError::PermissionDenied { .. } => 2,
        PyForgeError::ProjectAlreadyExists { .. } => 3,
        PyForgeError::NotAPythonProject => 4,
        PyForgeError::InvalidConfig { .. } => 5,
        PyForgeError::CommandFailed { .. } => 6,
        PyForgeError::CommandNotFound { .. } => 7,
        PyForgeError::CommandTimeout { .. } => 8,
        PyForgeError::InvalidProjectName { .. } => 9,
        PyForgeError::UnsupportedPythonVersion { .. } => 10,
        PyForgeError::TemplateNotFound { .. } => 11,
        PyForgeError::NetworkError { .. } => 12,
        PyForgeError::DownloadFailed { .. } => 13,
        PyForgeError::ParseError { .. } => 14,
        PyForgeError::InvalidJson { .. } => 15,
        PyForgeError::InvalidToml { .. } => 16,
        PyForgeError::Internal { .. } => 17,
        PyForgeError::UserCancelled => 18,
        PyForgeError::NotImplemented { .. } => 19,
    }
}

/// Two errors of the same variant have the same exit code and the same
/// recoverability, whatever their fields hold.
pub proof fn lemma_policy_depends_on_variant_only(a: PyForgeError, b: PyForgeError)
    requires
        variant_of(a) == variant_of(b),
    ensures
        exit_code_of(a) == exit_code_of(b),
        recoverable(a) == recoverable(b),
{
}

/// Conversion of an absent value into an internal error.
pub trait OptionExt<T>: Sized {
    /// The value held, if any.
    spec fn held(&self) -> Option<T>;

    /// The value held, or an internal error carrying `message`.
    fn ok_or_internal(self, message: &str) -> (r: Result<T, PyForgeError>)
        ensures
            self.held() matches Some(v) ==> r == Ok::<T, PyForgeError>(v),
            self.held() is None ==> (r matches Err(PyForgeError::Internal { message: m })
                && m@ == message@),
    ;
}

impl<T> OptionExt<T> for Option<T> {
    open spec fn held(&self) -> Option<T> {
        *self
    }

    fn ok_or_internal(self, message: &str) -> (r: Result<T, PyForgeError>) {
        match self {
            Some(v) => Ok(v),
            None => Err(PyForgeError::internal(String::from_str(message))),
        }
    }
}

} // verus!
