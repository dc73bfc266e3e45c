use vstd::prelude::*;

use crate::error::DiscordClientError;

verus! {

/// An immutable webhook message. Values exist only through
/// [`WebhookMessageBuilder::build`], so a message always holds exactly the
/// content its builder was given. Its view is that content, as characters.
#[derive(Debug)]
pub struct WebhookMessage {
    message: String,
}

/// A single-use accumulator for a [`WebhookMessage`]: created empty by
/// [`WebhookMessage::builder`], it holds an optional content string until it
/// is consumed by [`build`](Self::build). Its view is that optional content.
pub struct WebhookMessageBuilder {
    message: Option<String>,
}

impl View for WebhookMessage {
    type V = Seq<char>;

    closed spec fn view(&self) -> Seq<char> {
        self.message@
    }
}

impl View for WebhookMessageBuilder {
    type V = Option<Seq<char>>;

    closed spec fn view(&self) -> Option<Seq<char>> {
        match self.message {
            Some(s) => Some(s@),
            None => None,
        }
    }
}

/// The text carried by the validation error for a builder whose required
/// content field was never set.
pub open spec fn missing_message_text() -> Seq<char> {
    "message field required"@
}

/// What finalizing a builder yields, as a function of the builder's state:
/// the content when one was set, otherwise the validation error text.
pub open spec fn build_result_spec(b: Option<Seq<char>>) -> Result<Seq<char>, Seq<char>> {
    match b {
        Some(content) => Ok(content),
        None => Err(missing_message_text()),
    }
}

impl WebhookMessage {
    /// Starts a fresh builder with no content set.
    pub fn builder() -> (r: WebhookMessageBuilder)
        ensures
            r@ is None,
    {
        WebhookMessageBuilder { message: None }
    }

    /// The message text.
    pub fn content(&self) -> (r: &String)
        ensures
            r@ == self@,
    {
        &self.message
    }
}

impl WebhookMessageBuilder {
    /// Sets, or overwrites, the content field.
    pub fn set_content(self, text: String) -> (r: Self)
        ensures
            r@ == Some(text@),
    {
        WebhookMessageBuilder { message: Some(text) }
    }

    /// Consumes the builder. When the content field was never set, this
    /// fails with a validation error naming the field; otherwise it yields a
    /// message holding exactly the provided content. No I/O happens here.
    pub fn build(self) -> (r: Result<WebhookMessage, DiscordClientError>)
        ensures
            build_result_spec(self@) matches Ok(content) ==> (r matches Ok(m)
                && m@ == content),
            build_result_spec(self@) matches Err(text) ==> (r matches Err(e)
                && e.is_validation_error(text)),
            r is Ok <==> self@ is Some,
    {
        match self.message {
            None => Err(DiscordClientError::InvalidWebhookMessageBuilder(
                String::from_str("message field required"),
            )),
            Some(content) => Ok(WebhookMessage { message: content }),
        }
    }
}

/// Law: a builder whose content was never set never builds a message; the
/// outcome is always the validation error naming the `message` field.
pub proof fn lemma_build_without_content_fails()
    ensures
        build_result_spec(None) is Err,
        (build_result_spec(None) matches Err(text) && text == missing_message_text()),
{
}

/// Law (round trip): a builder whose content was set to `s` always builds,
/// and the resulting message's content is exactly `s`.
pub proof fn lemma_build_round_trip(s: Seq<char>)
    ensures
        build_result_spec(Some(s)) == Ok::<Seq<char>, Seq<char>>(s),
{
}

} // verus!
