//! The request that carries the message to the push service.
use vstd::prelude::*;
use crate::config::Config;
use crate::error::{error_exit_code, PingError};

verus! {

/// The service endpoint that messages are posted to.
pub open spec fn endpoint_url() -> Seq<char> {
    "https://api.pushover.net/1/messages.json"@
}

/// The form fields of a request, in order: the application token, the user
/// token and the message.
pub open spec fn form_fields(app_token: Seq<char>, user_token: Seq<char>, message: Seq<char>) -> Seq<
    (Seq<char>, Seq<char>),
> {
    seq![("token"@, app_token), ("user"@, user_token), ("message"@, message)]
}

/// The fields posted for `message` with the credentials `config`; an empty
/// message is never sent.
pub open spec fn notification_fields(config: (Seq<char>, Seq<char>), message: Seq<char>) -> Result<
    Seq<(Seq<char>, Seq<char>)>,
    PingError,
> {
    if message.len() == 0 {
        Err(PingError::EmptyMessage)
    } else {
        Ok(form_fields(config.0, config.1, message))
    }
}

/// A multipart form POST to be made: text fields, each a name and a value.
pub struct Notification {
    pub url: String,
    pub fields: Vec<(String, String)>,
}

/// The view of a list of form fields.
pub open spec fn fields_view(fields: Seq<(String, String)>) -> Seq<(Seq<char>, Seq<char>)> {
    fields.map_values(|f: (String, String)| (f.0@, f.1@))
}

/// The view of a prepared request's fields, or of the error in its place.
pub open spec fn notification_view(r: Result<Notification, PingError>) -> Result<
    Seq<(Seq<char>, Seq<char>)>,
    PingError,
> {
    match r {
        Ok(n) => Ok(fields_view(n.fields@)),
        Err(e) => Err(e),
    }
}

/// Prepares the request that sends `message`, refusing an empty message.
pub fn prepare(config: &Config, message: &str) -> (r: Result<Notification, PingError>)
    ensures
        notification_view(r) == notification_fields(config@, message@),
        r matches Ok(n) ==> n.url@ == endpoint_url(),
{
    if message.is_empty() {
        return Err(PingError::EmptyMessage);
    }
    let fields = vec![
        ("token".to_owned(), config.app_token.clone()),
        ("user".to_owned(), config.user_token.clone()),
        ("message".to_owned(), message.to_owned()),
    ];
    proof {
        assert(fields_view(fields@) =~= form_fields(config@.0, config@.1, message@));
    }
    Ok(Notification { url: "https://api.pushover.net/1/messages.json".to_owned(), fields })
}

/// An empty message is refused before any request exists, and the run then
/// ends with exit code 1.
pub proof fn empty_message_is_not_sent(config: (Seq<char>, Seq<char>), message: Seq<char>)
    requires
        message.len() == 0,
    ensures
        notification_fields(config, message) == Err::<Seq<(Seq<char>, Seq<char>)>, PingError>(
            PingError::EmptyMessage,
        ),
        error_exit_code(PingError::EmptyMessage) == 1,
{
}

} // verus!
