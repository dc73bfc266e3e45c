use vstd::prelude::*;

use crate::message::WebhookMessage;

verus! {

/// The sixteen hexadecimal digits, lower case.
pub open spec fn hex_digits() -> Seq<char> {
    seq!['0', '1', '2', '3', '4', '5', '6', '7', '8', '9', 'a', 'b', 'c', 'd', 'e', 'f']
}

/// A character that stands for itself inside a JSON string literal: anything
/// but the quote, the backslash and the control characters.
pub open spec fn json_plain_char(c: char) -> bool {
    c != '"' && c != '\\' && (c as u32) >= 0x20
}

/// How one character appears inside a JSON string literal, with minimal
/// escaping: the quote and the backslash get a backslash escape, the control
/// characters get their short escape or `\u00` and two lower-case hex
/// digits, and every other character stands for itself.
pub open spec fn json_escape_char(c: char) -> Seq<char> {
    if c == '"' {
        seq!['\\', '"']
    } else if c == '\\' {
        seq!['\\', '\\']
    } else if c == '\u{8}' {
        seq!['\\', 'b']
    } else if c == '\t' {
        seq!['\\', 't']
    } else if c == '\n' {
        seq!['\\', 'n']
    } else if c == '\u{c}' {
        seq!['\\', 'f']
    } else if c == '\r' {
        seq!['\\', 'r']
    } else if (c as u32) < 0x20 {
        seq!['\\', 'u', '0', '0'] + seq![
            hex_digits()[(c as u32 / 16) as int],
            hex_digits()[(c as u32 % 16) as int],
        ]
    } else {
        seq![c]
    }
}

/// A whole text, escaped character by character.
pub open spec fn json_escape(s: Seq<char>) -> Seq<char>
    decreases s.len(),
{
    if s.len() == 0 {
        Seq::empty()
    } else {
        json_escape_char(s[0]) + json_escape(s.skip(1))
    }
}

/// The characters that open the payload object, up to and including the
/// opening quote of the content string: `{"content":"`.
pub open spec fn payload_opening() -> Seq<char> {
    seq!['{', '"', 'c', 'o', 'n', 't', 'e', 'n', 't', '"', ':', '"']
}

/// The characters that close the payload object: `"}`.
pub open spec fn payload_closing() -> Seq<char> {
    seq!['"', '}']
}

/// The exact wire payload for a message text: a JSON object whose only
/// member has the key `content` and the escaped text as its value.
pub open spec fn content_payload_spec(content: Seq<char>) -> Seq<char> {
    payload_opening() + json_escape(content) + payload_closing()
}

/// The exact compact form of a JSON object with a single string member:
/// the key and the value each escaped and quoted, joined by a colon.
pub open spec fn single_member_object_spec(key: Seq<char>, value: Seq<char>) -> Seq<char> {
    seq!['{', '"'] + json_escape(key) + seq!['"', ':', '"'] + json_escape(value) + seq!['"', '}']
}

/// Relies on serde_json's `Display` impl for `Value` (reached through
/// `ToString`): the compact form of a one-entry object is `{"k":"v"}`,
/// where the key and the value each appear with exactly the quote, the
/// backslash and the control characters escaped, the latter as their short
/// escape or as `\u00` and two lower-case hexadecimal digits.
#[verifier::external_body]
fn encode_single_member_object(key: &str, value: &str) -> (r: String)
    ensures
        r@ == single_member_object_spec(key@, value@),
{
    let mut object = serde_json::Map::new();
    object.insert(key.to_string(), serde_json::Value::String(value.to_string()));
    serde_json::Value::Object(object).to_string()
}

impl WebhookMessage {
    /// Serializes the message as its wire payload: a JSON object whose only
    /// key is `content` and whose value is the message text, escaped only as
    /// far as JSON requires.
    pub fn json_payload(&self) -> (r: String)
        ensures
            r@ == content_payload_spec(self@),
    {
        let payload = encode_single_member_object("content", self.content().as_str());
        proof {
            reveal_strlit("content");
            lemma_plain_text_payload("content"@);
            assert(single_member_object_spec("content"@, self@) =~= content_payload_spec(self@));
        }
        payload
    }
}

/// Law: escaping never alters a text made of plain characters, so for such a
/// text the payload carries the text itself, verbatim, as the value of the
/// single `content` member.
pub proof fn lemma_plain_text_payload(s: Seq<char>)
    requires
        forall|i: int| 0 <= i < s.len() ==> json_plain_char(s[i]),
    ensures
        json_escape(s) == s,
        content_payload_spec(s) == payload_opening() + s + payload_closing(),
    decreases s.len(),
{
    if s.len() == 0 {
        assert(json_escape(s) =~= s);
    } else {
        lemma_plain_text_payload(s.skip(1));
        assert(json_escape_char(s[0]) == seq![s[0]]);
        assert(json_escape(s) =~= s);
    }
}

} // verus!
