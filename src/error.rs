//! The ways a run can fail, with the text and exit code of each.
use vstd::prelude::*;

verus! {

/// A credential that the configuration must hold.
#[derive(Clone, Copy, Debug, PartialEq, Eq, Structural)]
pub enum ConfigField {
    AppToken,
    UserToken,
}

/// A failure detected by the library's own logic. Failures of the outside
/// world (reading the file, running the command, the network) are reported
/// by the program around it.
#[derive(Clone, Copy, Debug, PartialEq, Eq, Structural)]
pub enum PingError {
    /// No configuration path was given and the directory it defaults to is
    /// unknown.
    ConfigHomeMissing,
    /// The configuration text is not well formed, or lacks a non-empty
    /// string for the field.
    ConfigFormat(ConfigField),
    /// Command mode was asked for without a command.
    Usage,
    /// The message to send came out empty.
    EmptyMessage,
    /// The reply of the service is not JSON with an integer `status`.
    ResponseFormat,
}

/// The key under which a credential is stored in the configuration.
pub open spec fn field_key(f: ConfigField) -> Seq<char> {
    match f {
        ConfigField::AppToken => "app_token"@,
        ConfigField::UserToken => "user_token"@,
    }
}

/// The diagnostic printed for an error.
pub open spec fn error_text(e: PingError) -> Seq<char> {
    match e {
        PingError::ConfigHomeMissing => "cannot locate the config file: its base directory is not set"@,
        PingError::ConfigFormat(ConfigField::AppToken) => "config must hold a non-empty string `app_token`"@,
        PingError::ConfigFormat(ConfigField::UserToken) => "config must hold a non-empty string `user_token`"@,
        PingError::Usage => "must provide at least 1 argument when using -c"@,
        PingError::EmptyMessage => "message cannot be empty"@,
        PingError::ResponseFormat => "failed to deserialize response json"@,
    }
}

/// The process exit code for an error: 2 for a usage error, 1 otherwise.
pub open spec fn error_exit_code(e: PingError) -> i32 {
    match e {
        PingError::Usage => 2,
        _ => 1,
    }
}

impl ConfigField {
    /// The configuration key of this field.
    pub fn key(&self) -> (r: &'static str)
        ensures
            r@ == field_key(*self),
    {
        match self {
            ConfigField::AppToken => "app_token",
            ConfigField::UserToken => "user_token",
        }
    }
}

impl PingError {
    /// The diagnostic to print for this error.
    pub fn message(&self) -> (r: String)
        ensures
            r@ == error_text(*self),
    {
        let s = match self {
            PingError::ConfigHomeMissing => "cannot locate the config file: its base directory is not set",
            PingError::ConfigFormat(ConfigField::AppToken) => "config must hold a non-empty string `app_token`",
            PingError::ConfigFormat(ConfigField::UserToken) => "config must hold a non-empty string `user_token`",
            PingError::Usage => "must provide at least 1 argument when using -c",
            PingError::EmptyMessage => "message cannot be empty",
            PingError::ResponseFormat => "failed to deserialize response json",
        };
        s.to_owned()
    }

    /// The exit code of a run that ends with this error.
    pub fn exit_code(&self) -> (r: i32)
        ensures
            r == error_exit_code(*self),
            r != 0,
    {
        match self {
            PingError::Usage => 2,
            _ => 1,
        }
    }
}

} // verus!
