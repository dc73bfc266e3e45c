use vstd::prelude::*;

verus! {

/// `reqwest::Error` is declared so that a transport failure can be carried
/// inside [`DiscordClientError`]; Verus treats its values as opaque.
#[verifier::external_type_specification]
#[verifier::external_body]
pub struct ExReqwestError(reqwest::Error);

/// The two ways a webhook call can go wrong: the message was finalized
/// without its required field, or the HTTP transport reported a failure.
#[derive(Debug)]
pub enum DiscordClientError {
    /// The message builder was finalized without a required field; the
    /// carried text names that field.
    InvalidWebhookMessageBuilder(String),
    /// The HTTP transport failed; the underlying error is kept for
    /// diagnostics.
    FailedToSendRequest(reqwest::Error),
}

impl DiscordClientError {
    /// True exactly of the validation error whose text is `t`.
    pub open spec fn is_validation_error(&self, t: Seq<char>) -> bool {
        self matches DiscordClientError::InvalidWebhookMessageBuilder(m) && m@ == t
    }

    /// The human-readable description of the error: the validation error
    /// names what went wrong with the builder, the transport error is a
    /// fixed sentence that never quotes the secret token.
    pub fn describe(&self) -> (r: String)
        ensures
            (self matches DiscordClientError::InvalidWebhookMessageBuilder(m) ==> r@
                == "Invalid Webhook Message Builder: "@ + m@),
            (self matches DiscordClientError::FailedToSendRequest(_) ==> r@
                == "Error when sending request to Discord server"@),
    {
        match self {
            DiscordClientError::InvalidWebhookMessageBuilder(text) => {
                let mut description = String::from_str("Invalid Webhook Message Builder: ");
                description.append(text.as_str());
                description
            },
            DiscordClientError::FailedToSendRequest(_) => {
                String::from_str("Error when sending request to Discord server")
            },
        }
    }
}

} // verus!
