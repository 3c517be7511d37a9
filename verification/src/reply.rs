//! What a caller wants to say in answer to an interaction.

use vstd::prelude::*;

verus! {

/// An embed of a message. This library passes it on untouched.
#[verifier::external_type_specification]
#[verifier::external_body]
pub struct ExEmbed(twilight_model::channel::message::Embed);

/// A file to send with a message. This library passes it on untouched.
#[verifier::external_type_specification]
#[verifier::external_body]
pub struct ExAttachment(twilight_model::http::attachment::Attachment);

/// Who a message may mention. This library passes it on untouched.
#[verifier::external_type_specification]
#[verifier::external_body]
pub struct ExAllowedMentions(twilight_model::channel::message::AllowedMentions);

/// An interactive part of a message, as the caller built it. This library
/// passes it on untouched.
#[verifier::external_type_specification]
#[verifier::external_body]
pub struct ExComponent(twilight_model::channel::message::Component);

/// The bit of `MessageFlags` that shows a message to the invoking user only.
pub const EPHEMERAL_BIT: u64 = 0x40;

/// Flags of a message, one bit each.
#[derive(Clone, Copy, Debug, PartialEq, Eq)]
pub struct MessageFlags {
    /// The raw bits.
    pub bits: u64,
}

/// `MessageFlags::EPHEMERAL` of twilight_model, as raw bits. The contract
/// claims that it is the single bit `EPHEMERAL_BIT`.
#[verifier::external_body]
fn ephemeral_bits() -> (bits: u64)
    ensures
        bits == EPHEMERAL_BIT,
{
    twilight_model::channel::message::MessageFlags::EPHEMERAL.bits()
}

impl MessageFlags {
    /// The flag that shows a message to the invoking user only.
    pub fn ephemeral() -> (flags: MessageFlags)
        ensures
            flags.bits == EPHEMERAL_BIT,
    {
        MessageFlags { bits: ephemeral_bits() }
    }
}

/// A message to answer an interaction with. Its parts are the caller's; this
/// library routes them and validates none.
#[derive(Debug, PartialEq)]
pub struct Reply {
    /// The text. Empty means no text.
    pub content: String,
    /// The embeds.
    pub embeds: Vec<twilight_model::channel::message::Embed>,
    /// The interactive components.
    pub components: Vec<twilight_model::channel::message::Component>,
    /// The files.
    pub attachments: Vec<twilight_model::http::attachment::Attachment>,
    /// The flags, among them the ephemeral one.
    pub flags: MessageFlags,
    /// Whether the text is read aloud.
    pub tts: bool,
    /// Who may be mentioned. `None` leaves the platform's default in place,
    /// `Some(None)` asks for no restriction to be sent, `Some(Some(..))`
    /// sends the given one.
    pub allowed_mentions: Option<Option<twilight_model::channel::message::AllowedMentions>>,
}

} // verus!
