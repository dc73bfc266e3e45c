use vstd::prelude::*;

use secrecy::ExposeSecret;

use crate::error::DiscordClientError;
use crate::json::content_payload_spec;
use crate::message::WebhookMessage;

verus! {

/// `reqwest::Client` is declared so the webhook client can hold its HTTP
/// transport handle; nothing about the handle is relied on.
#[verifier::external_type_specification]
#[verifier::external_body]
pub struct ExReqwestClient(reqwest::Client);

/// A secret string, kept inside `secrecy::Secret` so that its default
/// `Debug` output is a redacted placeholder, never the wrapped value. Verus
/// sees this holder as opaque; its contents are [`secret_chars`].
#[verifier::external_body]
#[derive(Debug)]
pub struct SecretToken {
    token: secrecy::Secret<String>,
}

/// The string a [`SecretToken`] wraps. Only [`expose_token`] reveals it; in
/// particular the token's `Debug` output never shows it.
pub uninterp spec fn secret_chars(s: SecretToken) -> Seq<char>;

impl SecretToken {
    /// Relies on `secrecy::Secret::new`: it takes ownership of the given
    /// string, unchanged.
    #[verifier::external_body]
    pub fn new(secret: String) -> (r: Self)
        ensures
            secret_chars(r) == secret@,
    {
        SecretToken { token: secrecy::Secret::new(secret) }
    }
}

/// Relies on `secrecy::ExposeSecret::expose_secret`: it hands out a
/// reference to the wrapped string, unchanged.
#[verifier::external_body]
fn expose_token(s: &SecretToken) -> (r: &String)
    ensures
        r@ == secret_chars(*s),
{
    s.token.expose_secret()
}

/// Relies on `reqwest::Client::new`: it builds a reusable HTTP transport
/// with default settings; nothing about the result is relied on.
#[verifier::external_body]
fn new_http_client() -> reqwest::Client {
    reqwest::Client::new()
}

/// Webhook-related APIs: a client that holds, for its whole lifetime, an
/// HTTP transport, the public webhook identifier and the secret webhook
/// token, and turns a built message into one outbound request.
#[derive(Debug)]
pub struct Webhooks {
    client: reqwest::Client,
    webhook_id: String,
    webhook_token: SecretToken,
}

/// The two pieces of the one outbound request that sending a message makes:
/// where to POST, and the JSON body to send.
pub struct WebhookRequest {
    pub url: String,
    pub body: String,
}

/// The provider's endpoint for one webhook: the fixed prefix with the id and
/// the token substituted verbatim as the two final path components.
pub open spec fn webhook_url_spec(id: Seq<char>, token: Seq<char>) -> Seq<char> {
    "https://discord.com/api/webhooks/"@ + id + "/"@ + token
}

impl Webhooks {
    /// The webhook identifier, as characters.
    pub closed spec fn id_view(&self) -> Seq<char> {
        self.webhook_id@
    }

    /// The secret webhook token, as characters.
    pub closed spec fn token_view(&self) -> Seq<char> {
        secret_chars(self.webhook_token)
    }

    /// The transport handle the client was created with.
    pub closed spec fn transport(&self) -> reqwest::Client {
        self.client
    }

    /// Creates a client bound to the given credentials, with a fresh
    /// reusable HTTP transport. The token is stored in its redacting wrapper
    /// exactly as given.
    pub fn new(webhook_id: String, webhook_token: SecretToken) -> (r: Self)
        ensures
            r.id_view() == webhook_id@,
            r.token_view() == secret_chars(webhook_token),
    {
        let client = new_http_client();
        Webhooks { client, webhook_id, webhook_token }
    }

    /// The URL the client POSTs to: the id and the token stand verbatim, in
    /// that order, as the final path components.
    pub fn webhook_url(&self) -> (r: String)
        ensures
            r@ == webhook_url_spec(self.id_view(), self.token_view()),
    {
        let mut url = String::from_str("https://discord.com/api/webhooks/");
        url.append(self.webhook_id.as_str());
        url.append("/");
        url.append(expose_token(&self.webhook_token).as_str());
        url
    }

    /// Assembles the single HTTP request that sending `message` performs: a
    /// POST of the message's JSON payload to the webhook's URL. No further
    /// validation happens here; that was the builder's task.
    pub fn prepare_execute_webhook(&self, message: &WebhookMessage) -> (r: WebhookRequest)
        ensures
            r.url@ == webhook_url_spec(self.id_view(), self.token_view()),
            r.body@ == content_payload_spec(message@),
    {
        WebhookRequest { url: self.webhook_url(), body: message.json_payload() }
    }

    /// A borrow of the transport handle, for the code that performs the
    /// request.
    pub fn http_client(&self) -> (r: &reqwest::Client)
        ensures
            *r == self.transport(),
    {
        &self.client
    }
}

/// Interprets the transport's outcome for one send: success stays success,
/// and any transport error is returned as `FailedToSendRequest` with the
/// underlying cause kept. Sending never panics on a failed request.
pub fn send_outcome(outcome: Result<(), reqwest::Error>) -> (r: Result<(), DiscordClientError>)
    ensures
        outcome is Ok ==> r is Ok,
        (outcome matches Err(e) ==> r == Err::<(), DiscordClientError>(
            DiscordClientError::FailedToSendRequest(e),
        )),
{
    match outcome {
        Ok(()) => Ok(()),
        Err(e) => Err(DiscordClientError::FailedToSendRequest(e)),
    }
}

} // verus!
