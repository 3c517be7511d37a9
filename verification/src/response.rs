//! The wire calls that answer an interaction, as plain data.
//!
//! A `Dispatch` says which of the two endpoints of the remote interaction
//! API is to be called and with what. Making the call is the caller's part.

use vstd::prelude::*;
use crate::reply::{MessageFlags, Reply, EPHEMERAL_BIT};

verus! {

/// A text field of a modal. This library passes it on untouched.
#[verifier::external_type_specification]
#[verifier::external_body]
pub struct ExTextInput(twilight_model::channel::message::component::TextInput);

/// A suggestion offered while the user types a command option. This library
/// passes it on untouched.
#[verifier::external_type_specification]
#[verifier::external_body]
pub struct ExCommandOptionChoice(twilight_model::application::command::CommandOptionChoice);

/// An interactive part of an initial response.
#[derive(Debug, PartialEq)]
pub enum MessageComponent {
    /// A component as the caller built it.
    Supplied(twilight_model::channel::message::Component),
    /// A row that holds other components.
    ActionRow(Vec<MessageComponent>),
    /// A text field.
    TextInput(twilight_model::channel::message::component::TextInput),
}

/// Whether `row` is a row that holds `input` and nothing else.
pub open spec fn is_input_row(
    row: MessageComponent,
    input: twilight_model::channel::message::component::TextInput,
) -> bool {
    row matches MessageComponent::ActionRow(inner) && inner@ =~= seq![MessageComponent::TextInput(input)]
}

/// Whether `rows` holds one row for each field of `inputs`, in order, each
/// row with its field alone.
pub open spec fn are_input_rows(
    rows: Seq<MessageComponent>,
    inputs: Seq<twilight_model::channel::message::component::TextInput>,
) -> bool {
    &&& rows.len() == inputs.len()
    &&& forall|i: int| 0 <= i < inputs.len() ==> is_input_row(#[trigger] rows[i], inputs[i])
}

/// Whether `components` holds the parts of `supplied`, in order, each as
/// the caller built it.
pub open spec fn are_supplied(
    components: Seq<MessageComponent>,
    supplied: Seq<twilight_model::channel::message::Component>,
) -> bool {
    &&& components.len() == supplied.len()
    &&& forall|i: int|
        0 <= i < supplied.len() ==> #[trigger] components[i] == MessageComponent::Supplied(supplied[i])
}

/// Puts each text field into a row of its own: the layout that the platform
/// asks of a modal.
pub fn input_rows(inputs: Vec<twilight_model::channel::message::component::TextInput>) -> (rows:
    Vec<MessageComponent>)
    ensures
        are_input_rows(rows@, inputs@),
{
    let mut rows: Vec<MessageComponent> = Vec::new();
    for input in it: inputs
        invariant
            rows@.len() == it.index(),
            forall|i: int| 0 <= i < it.index() ==> is_input_row(#[trigger] rows@[i], it.seq()[i]),
    {
        let mut inner: Vec<MessageComponent> = Vec::new();
        inner.push(MessageComponent::TextInput(input));
        rows.push(MessageComponent::ActionRow(inner));
    }
    rows
}

/// Marks each component as the caller's own.
pub fn supplied_components(supplied: Vec<twilight_model::channel::message::Component>) -> (components:
    Vec<MessageComponent>)
    ensures
        are_supplied(components@, supplied@),
{
    let mut components: Vec<MessageComponent> = Vec::new();
    for part in it: supplied
        invariant
            components@.len() == it.index(),
            forall|i: int|
                0 <= i < it.index() ==> #[trigger] components@[i] == MessageComponent::Supplied(
                    it.seq()[i],
                ),
    {
        components.push(MessageComponent::Supplied(part));
    }
    components
}

/// The kinds of initial response that this library sends.
#[derive(Clone, Copy, Debug, PartialEq, Eq, Structural)]
pub enum InteractionResponseType {
    /// A message, sent at once.
    ChannelMessageWithSource,
    /// An acknowledgement; the message follows later.
    DeferredChannelMessageWithSource,
    /// Suggestions for a command option that the user is typing.
    ApplicationCommandAutocompleteResult,
    /// A form for the user to fill in.
    Modal,
}

/// The body of an initial response. A field that is `None` is not sent.
#[derive(Debug, PartialEq)]
pub struct InteractionResponseData {
    /// Who the message may mention.
    pub allowed_mentions: Option<twilight_model::channel::message::AllowedMentions>,
    /// The files of the message.
    pub attachments: Option<Vec<twilight_model::http::attachment::Attachment>>,
    /// The suggestions of an autocomplete result.
    pub choices: Option<Vec<twilight_model::application::command::CommandOptionChoice>>,
    /// The components of the message, or the rows of the modal.
    pub components: Option<Vec<MessageComponent>>,
    /// The text of the message.
    pub content: Option<String>,
    /// The identifier of the modal.
    pub custom_id: Option<String>,
    /// The embeds of the message.
    pub embeds: Option<Vec<twilight_model::channel::message::Embed>>,
    /// The flags of the message.
    pub flags: Option<MessageFlags>,
    /// The title of the modal.
    pub title: Option<String>,
    /// Whether the message is read aloud.
    pub tts: Option<bool>,
}

/// An initial response to an interaction.
#[derive(Debug, PartialEq)]
pub struct InteractionResponse {
    /// What kind of response this is.
    pub kind: InteractionResponseType,
    /// The body that goes with the kind.
    pub data: Option<InteractionResponseData>,
}

/// A message sent after the initial response.
#[derive(Debug, PartialEq)]
pub struct Followup {
    /// The text, if there is any.
    pub content: Option<String>,
    /// Who may be mentioned: as in `Reply`.
    pub allowed_mentions: Option<Option<twilight_model::channel::message::AllowedMentions>>,
    /// The embeds.
    pub embeds: Vec<twilight_model::channel::message::Embed>,
    /// The interactive components.
    pub components: Vec<twilight_model::channel::message::Component>,
    /// The files.
    pub attachments: Vec<twilight_model::http::attachment::Attachment>,
    /// The flags.
    pub flags: MessageFlags,
    /// Whether the text is read aloud.
    pub tts: bool,
}

/// The two endpoints of the remote interaction API.
#[derive(Clone, Copy, Debug, PartialEq, Eq, Structural)]
pub enum Endpoint {
    /// Creates the initial response. The platform accepts one per
    /// interaction.
    InitialResponse,
    /// Creates a followup message. The platform accepts these once the
    /// initial response is there.
    Followup,
}

/// A call to the remote interaction API that is still to be made.
#[derive(Debug, PartialEq)]
pub enum Dispatch {
    /// Create the initial response.
    CreateResponse {
        /// The interaction that is answered.
        interaction_id: u64,
        /// The token that authorizes the answer.
        token: String,
        /// The response to send.
        response: InteractionResponse,
    },
    /// Create a followup message.
    CreateFollowup {
        /// The token that authorizes the message.
        token: String,
        /// The message to send.
        followup: Followup,
    },
}

impl Dispatch {
    /// The endpoint that the call goes to.
    pub open spec fn endpoint_of(self) -> Endpoint {
        match self {
            Dispatch::CreateResponse { .. } => Endpoint::InitialResponse,
            Dispatch::CreateFollowup { .. } => Endpoint::Followup,
        }
    }

    /// The token that the call is made with.
    pub open spec fn token_of(self) -> String {
        match self {
            Dispatch::CreateResponse { token, .. } => token,
            Dispatch::CreateFollowup { token, .. } => token,
        }
    }

    /// The endpoint that the call goes to.
    pub fn endpoint(&self) -> (endpoint: Endpoint)
        ensures
            endpoint == self.endpoint_of(),
    {
        match self {
            Dispatch::CreateResponse { .. } => Endpoint::InitialResponse,
            Dispatch::CreateFollowup { .. } => Endpoint::Followup,
        }
    }
}

/// A body in which no field is sent.
pub open spec fn empty_data() -> InteractionResponseData {
    InteractionResponseData {
        allowed_mentions: None,
        attachments: None,
        choices: None,
        components: None,
        content: None,
        custom_id: None,
        embeds: None,
        flags: None,
        title: None,
        tts: None,
    }
}

/// The acknowledgement that buys time for a later message: nothing but the
/// ephemeral flag, and that only if it is asked for.
pub open spec fn deferral(ephemeral: bool) -> InteractionResponse {
    InteractionResponse {
        kind: InteractionResponseType::DeferredChannelMessageWithSource,
        data: Some(
            InteractionResponseData {
                flags: if ephemeral {
                    Some(MessageFlags { bits: EPHEMERAL_BIT })
                } else {
                    None
                },
                ..empty_data()
            },
        ),
    }
}

/// The autocomplete result that offers `choices` and nothing else.
pub open spec fn suggestions(
    choices: Vec<twilight_model::application::command::CommandOptionChoice>,
) -> InteractionResponse {
    InteractionResponse {
        kind: InteractionResponseType::ApplicationCommandAutocompleteResult,
        data: Some(InteractionResponseData { choices: Some(choices), ..empty_data() }),
    }
}

/// Whether `response` is the modal with the given identifier and title and
/// with one row for each field of `inputs`.
pub open spec fn is_modal(
    response: InteractionResponse,
    custom_id: String,
    title: String,
    inputs: Seq<twilight_model::channel::message::component::TextInput>,
) -> bool {
    &&& response.kind == InteractionResponseType::Modal
    &&& response.data matches Some(data)
    &&& data.components matches Some(rows)
    &&& are_input_rows(rows@, inputs)
    &&& data.custom_id == Some(custom_id)
    &&& data.title == Some(title)
    &&& data.allowed_mentions is None
    &&& data.attachments is None
    &&& data.choices is None
    &&& data.content is None
    &&& data.embeds is None
    &&& data.flags is None
    &&& data.tts is None
}

/// What `Reply::allowed_mentions` comes to in an initial response, which
/// cannot tell "leave the default" from "send none".
pub open spec fn flattened<T>(nested: Option<Option<T>>) -> Option<T> {
    match nested {
        Some(inner) => inner,
        None => None,
    }
}

/// Whether `response` is the message that carries every part of `reply` as
/// the caller gave it. The text is sent even if it is empty.
pub open spec fn is_message(response: InteractionResponse, reply: Reply) -> bool {
    &&& response.kind == InteractionResponseType::ChannelMessageWithSource
    &&& response.data matches Some(data)
    &&& data.components matches Some(components)
    &&& are_supplied(components@, reply.components@)
    &&& data.content == Some(reply.content)
    &&& data.embeds == Some(reply.embeds)
    &&& data.attachments == Some(reply.attachments)
    &&& data.flags == Some(reply.flags)
    &&& data.tts == Some(reply.tts)
    &&& data.allowed_mentions == flattened(reply.allowed_mentions)
    &&& data.choices is None
    &&& data.custom_id is None
    &&& data.title is None
}

/// The followup that carries every part of `reply` as the caller gave it,
/// but for an empty text, which is left out.
pub open spec fn followup_of(reply: Reply) -> Followup {
    Followup {
        content: if reply.content@.len() == 0 {
            None
        } else {
            Some(reply.content)
        },
        allowed_mentions: reply.allowed_mentions,
        embeds: reply.embeds,
        components: reply.components,
        attachments: reply.attachments,
        flags: reply.flags,
        tts: reply.tts,
    }
}

} // verus!
