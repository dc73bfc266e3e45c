//! A minimal client binding for Discord's incoming-webhook endpoint.
//!
//! A caller assembles a [`WebhookMessage`] through its builder, which rejects
//! a message whose required content field was never set, then hands it to a
//! [`Webhooks`] client bound to a webhook id and secret token. The client
//! turns the message into exactly one HTTP POST request: the JSON object
//! `{"content": <text>}` sent to
//! `https://discord.com/api/webhooks/<id>/<token>`.

mod client;
mod error;
mod json;
mod message;

pub use client::{secret_chars, send_outcome, webhook_url_spec, SecretToken, WebhookRequest, Webhooks};
pub use error::DiscordClientError;
pub use json::{
    content_payload_spec, hex_digits, json_escape, json_escape_char, json_plain_char,
    lemma_plain_text_payload, payload_closing, payload_opening, single_member_object_spec,
};
pub use message::{
    build_result_spec, lemma_build_round_trip, lemma_build_without_content_fails,
    missing_message_text, WebhookMessage, WebhookMessageBuilder,
};
