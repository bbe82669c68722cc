//! Where the configuration lives and what it must hold.
use vstd::prelude::*;
use crate::error::{error_exit_code, field_key, ConfigField, PingError};
use crate::text::{decode_lossy, utf8_lossy};

verus! {

/// The two credentials that the push service asks for.
pub struct Config {
    pub app_token: String,
    pub user_token: String,
}

impl View for Config {
    type V = (Seq<char>, Seq<char>);

    open spec fn view(&self) -> (Seq<char>, Seq<char>) {
        (self.app_token@, self.user_token@)
    }
}

/// Where to read the configuration from.
pub enum ConfigLocation {
    /// The path given on the command line.
    Explicit(String),
    /// The file of the platform's default name in this base directory.
    InBase(String),
}

/// The view of an optional string.
pub open spec fn opt_view(o: Option<String>) -> Option<Seq<char>> {
    match o {
        Some(s) => Some(s@),
        None => None,
    }
}

/// A credential is usable when it is present and not empty.
pub open spec fn usable(v: Option<Seq<char>>) -> bool {
    v is Some && v->0.len() > 0
}

/// The configuration made of the two entries found, or the first one that is
/// missing or empty.
pub open spec fn credentials(app: Option<Seq<char>>, user: Option<Seq<char>>) -> Result<
    (Seq<char>, Seq<char>),
    PingError,
> {
    if !usable(app) {
        Err(PingError::ConfigFormat(ConfigField::AppToken))
    } else if !usable(user) {
        Err(PingError::ConfigFormat(ConfigField::UserToken))
    } else {
        Ok((app->0, user->0))
    }
}

/// The view of a configuration result.
pub open spec fn config_view(r: Result<Config, PingError>) -> Result<
    (Seq<char>, Seq<char>),
    PingError,
> {
    match r {
        Ok(c) => Ok(c@),
        Err(e) => Err(e),
    }
}

/// The string stored under `key` in the TOML document `text`; none where the
/// text is not a TOML document or the key holds no string.
pub uninterp spec fn toml_string_entry(text: Seq<char>, key: Seq<char>) -> Option<Seq<char>>;

/// What the configuration file's bytes give: they are decoded leniently as
/// UTF-8 and read as TOML.
pub open spec fn config_of_bytes(bytes: Seq<u8>) -> Result<(Seq<char>, Seq<char>), PingError> {
    let text = utf8_lossy(bytes);
    credentials(
        toml_string_entry(text, field_key(ConfigField::AppToken)),
        toml_string_entry(text, field_key(ConfigField::UserToken)),
    )
}

/// Relies on `toml::from_str` into a `toml::Table`, then `Map::get` and
/// `Value::as_str`: the string under `key` at the top level of the document,
/// if the text parses and that entry is a string.
#[verifier::external_body]
fn toml_string(text: &str, key: &str) -> (r: Option<String>)
    ensures
        opt_view(r) == toml_string_entry(text@, key@),
{
    toml::from_str::<toml::Table>(text).ok().and_then(
        |t| t.get(key).and_then(|v| v.as_str()).map(|s| s.to_owned()),
    )
}

/// Chooses where the configuration is read from: the explicit path if one
/// was given, else the platform's base directory if it is known.
pub fn config_location(explicit: Option<String>, base: Option<String>) -> (r: Result<
    ConfigLocation,
    PingError,
>)
    ensures
        match explicit {
            Some(p) => r matches Ok(ConfigLocation::Explicit(q)) && q@ == p@,
            None => match base {
                Some(b) => r matches Ok(ConfigLocation::InBase(q)) && q@ == b@,
                None => r == Err::<ConfigLocation, PingError>(PingError::ConfigHomeMissing),
            },
        },
{
    match explicit {
        Some(p) => Ok(ConfigLocation::Explicit(p)),
        None => match base {
            Some(b) => Ok(ConfigLocation::InBase(b)),
            None => Err(PingError::ConfigHomeMissing),
        },
    }
}

impl Config {
    /// Makes the configuration from the two entries read; each must be
    /// present and non-empty.
    pub fn from_entries(app_token: Option<String>, user_token: Option<String>) -> (r: Result<
        Config,
        PingError,
    >)
        ensures
            config_view(r) == credentials(opt_view(app_token), opt_view(user_token)),
    {
        match (app_token, user_token) {
            (Some(a), Some(u)) => {
                if a.as_str().is_empty() {
                    Err(PingError::ConfigFormat(ConfigField::AppToken))
                } else if u.as_str().is_empty() {
                    Err(PingError::ConfigFormat(ConfigField::UserToken))
                } else {
                    Ok(Config { app_token: a, user_token: u })
                }
            },
            (Some(a), None) => {
                if a.as_str().is_empty() {
                    Err(PingError::ConfigFormat(ConfigField::AppToken))
                } else {
                    Err(PingError::ConfigFormat(ConfigField::UserToken))
                }
            },
            (None, _) => Err(PingError::ConfigFormat(ConfigField::AppToken)),
        }
    }

    /// Reads the configuration from the bytes of its file.
    pub fn parse(bytes: &[u8]) -> (r: Result<Config, PingError>)
        ensures
            config_view(r) == config_of_bytes(bytes@),
    {
        let text = decode_lossy(bytes);
        let app = toml_string(text.as_str(), ConfigField::AppToken.key());
        let user = toml_string(text.as_str(), ConfigField::UserToken.key());
        Config::from_entries(app, user)
    }
}

/// A configuration file that lacks either credential is refused, and the run
/// ends with a nonzero exit code before anything is sent.
pub proof fn missing_credential_is_refused(bytes: Seq<u8>)
    requires
        toml_string_entry(utf8_lossy(bytes), "app_token"@) is None || toml_string_entry(
            utf8_lossy(bytes),
            "user_token"@,
        ) is None,
    ensures
        config_of_bytes(bytes) is Err,
        error_exit_code(config_of_bytes(bytes)->Err_0) != 0,
{
}

} // verus!
