//! Errors of the application, how severe they are and what the user is told.

use crate::text::{decimal, push_decimal};
use vstd::prelude::*;
use vstd::string::*;

verus! {

/// What can go wrong. Failures of the store, the network, the serializer
/// and the file system come with their message.
#[derive(Debug, Clone)]
pub enum SpeedKarmaError {
    /// The network is not to be had for the moment; recovers by itself.
    NetworkUnavailable(String),
    /// The store failed.
    DatabaseError(String),
    /// A request failed.
    HttpError(String),
    /// The settings are wrong.
    ConfigurationError(String),
    /// More days of samples are needed.
    InsufficientData { required: u32 },
    /// The user has to grant permissions.
    PermissionsRequired,
    /// Anything else.
    SystemError(String),
    /// Data could not be written or read back.
    SerializationError(String),
    /// A file could not be read or written.
    IoError(String),
}

/// How severe an error is.
#[derive(Debug, Clone, Copy, PartialEq, Eq, Structural)]
pub enum ErrorSeverity {
    /// Nothing to do.
    Info,
    /// Recovers by itself.
    Low,
    /// May impair the application.
    Medium,
    /// Needs the user.
    High,
}

impl SpeedKarmaError {
    /// Whether the user is told of the error: only where there is
    /// something for the user to know or to do.
    pub open spec fn spec_should_notify_user(&self) -> bool {
        match self {
            SpeedKarmaError::InsufficientData { .. } => true,
            SpeedKarmaError::PermissionsRequired => true,
            SpeedKarmaError::ConfigurationError(_) => true,
            _ => false,
        }
    }

    /// How severe the error is.
    pub open spec fn spec_severity(&self) -> ErrorSeverity {
        match self {
            SpeedKarmaError::NetworkUnavailable(_) => ErrorSeverity::Low,
            SpeedKarmaError::InsufficientData { .. } => ErrorSeverity::Info,
            SpeedKarmaError::PermissionsRequired => ErrorSeverity::High,
            SpeedKarmaError::ConfigurationError(_) => ErrorSeverity::Medium,
            SpeedKarmaError::DatabaseError(_) => ErrorSeverity::Medium,
            _ => ErrorSeverity::Low,
        }
    }

    /// What the user is told.
    pub open spec fn spec_user_message(&self) -> Seq<char> {
        match self {
            SpeedKarmaError::InsufficientData { required } => "Still learning your network patterns. "@
                + decimal(*required as nat) + " more days needed for optimization."@,
            SpeedKarmaError::PermissionsRequired => "SpeedKarma needs network monitoring permissions to optimize your connection."@,
            SpeedKarmaError::ConfigurationError(msg) => "Configuration needs attention: "@ + msg@,
            _ => "SpeedKarma encountered an issue but will continue working."@,
        }
    }

    /// Whether the user is told of the error: only where there is
    /// something for the user to know or to do.
    pub fn should_notify_user(&self) -> (r: bool)
        ensures
            r == self.spec_should_notify_user(),
    {
        match self {
            SpeedKarmaError::InsufficientData { .. } => true,
            SpeedKarmaError::PermissionsRequired => true,
            SpeedKarmaError::ConfigurationError(_) => true,
            _ => false,
        }
    }

    /// What the user is told.
    pub fn user_message(&self) -> (r: String)
        ensures
            r@ == self.spec_user_message(),
    {
        match self {
            SpeedKarmaError::InsufficientData { required } => {
                let mut out = String::from_str("Still learning your network patterns. ");
                push_decimal(&mut out, *required as u64);
                out.append(" more days needed for optimization.");
                out
            },
            SpeedKarmaError::PermissionsRequired => String::from_str(
                "SpeedKarma needs network monitoring permissions to optimize your connection.",
            ),
            SpeedKarmaError::ConfigurationError(msg) => {
                let mut out = String::from_str("Configuration needs attention: ");
                out.append(msg.as_str());
                out
            },
            _ => String::from_str("SpeedKarma encountered an issue but will continue working."),
        }
    }

    /// How severe the error is.
    pub fn severity(&self) -> (r: ErrorSeverity)
        ensures
            r == self.spec_severity(),
    {
        match self {
            SpeedKarmaError::NetworkUnavailable(_) => ErrorSeverity::Low,
            SpeedKarmaError::InsufficientData { .. } => ErrorSeverity::Info,
            SpeedKarmaError::PermissionsRequired => ErrorSeverity::High,
            SpeedKarmaError::ConfigurationError(_) => ErrorSeverity::Medium,
            SpeedKarmaError::DatabaseError(_) => ErrorSeverity::Medium,
            _ => ErrorSeverity::Low,
        }
    }
}

/// What results with a message for an error can be turned into.
pub trait ResultExt<T> {
    /// The result with its error, if any, as a system error that names the context.
    fn with_context(self, context: &str) -> Result<T, SpeedKarmaError>;

    /// The value of the result, or `default` where it is an error.
    fn log_and_continue(self, default: T) -> T;
}

impl<T> ResultExt<T> for Result<T, String> {
    fn with_context(self, context: &str) -> (r: Result<T, SpeedKarmaError>)
        ensures
            match self {
                Ok(value) => r == Ok::<T, SpeedKarmaError>(value),
                Err(message) => r matches Err(SpeedKarmaError::SystemError(text)) && text@
                    == context@ + ": "@ + message@,
            },
    {
        match self {
            Ok(value) => Ok(value),
            Err(message) => {
                let mut text = String::from_str(context);
                text.append(": ");
                text.append(message.as_str());
                Err(SpeedKarmaError::SystemError(text))
            },
        }
    }

    fn log_and_continue(self, default: T) -> (r: T)
        ensures
            r == (match self {
                Ok(value) => value,
                Err(_) => default,
            }),
    {
        match self {
            Ok(value) => value,
            Err(_) => default,
        }
    }
}

} // verus!
