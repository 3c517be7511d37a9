//! The handle of one interaction, and the rule that it enforces: the first
//! answer to an interaction is its initial response, every later one is a
//! followup, and some answers can only be the first.
//!
//! Each operation comes in two steps. The first (`defer`, `reply`,
//! `autocomplete`, `modal`) reads the handle and decides which call is to be
//! made, or refuses. The second (`complete`) takes what became of that call
//! and updates the handle. Whoever shares a handle between tasks holds one
//! lock around both steps and the call between them, so that no task sees
//! the handle of another between its two steps.

use vstd::prelude::*;
use crate::error::{check_granted, missing_bits, UserError};
use crate::permissions::{Permissions, ALL_PERMISSION_BITS};
use crate::reply::{MessageFlags, Reply};
use crate::response::{
    deferral, followup_of, input_rows, is_message, is_modal, suggestions, supplied_components,
    Dispatch, Endpoint, Followup, InteractionResponse, InteractionResponseData,
    InteractionResponseType,
};

verus! {

/// An error returned when responding to interactions.
#[derive(Clone, Copy, Debug, PartialEq, Eq, Structural)]
pub enum InteractionError {
    /// A response that has to be the first was called on a responded
    /// interaction.
    AlreadyResponded,
}

impl InteractionError {
    /// The error in words.
    pub fn message(&self) -> (text: String)
        ensures
            text@ == "a response that has to be the first was called on a responded interaction"@,
    {
        "a response that has to be the first was called on a responded interaction".to_string()
    }
}

/// The user behind an interaction. This library passes it on untouched.
#[verifier::external_type_specification]
#[verifier::external_body]
pub struct ExUser(twilight_model::user::User);

/// What an interaction is about, as far as this library reads it.
#[derive(Debug, PartialEq)]
pub enum InteractionData {
    /// A command was invoked.
    ApplicationCommand {
        /// The name of the command.
        name: String,
    },
    /// A component of a message was used.
    MessageComponent {
        /// The identifier that the component was made with.
        custom_id: String,
    },
    /// A modal was submitted.
    ModalSubmit {
        /// The identifier that the modal was made with.
        custom_id: String,
    },
    /// Anything else.
    Other,
}

/// The guild member who invoked an interaction.
#[derive(Debug, PartialEq)]
pub struct InteractionMember {
    /// The user that the member is, where the platform says so.
    pub user: Option<twilight_model::user::User>,
}

/// What this library reads of an interaction that came in.
#[derive(Debug, PartialEq)]
pub struct Interaction {
    /// The identifier of the interaction.
    pub id: u64,
    /// The token that authorizes answers to it.
    pub token: String,
    /// The permissions of the bot where the interaction was invoked, where
    /// there are any: a direct message has none.
    pub app_permissions: Option<Permissions>,
    /// What the interaction is about. A ping is about nothing.
    pub data: Option<InteractionData>,
    /// The user who invoked it, if it was invoked in a direct message.
    pub user: Option<twilight_model::user::User>,
    /// The member who invoked it, if it was invoked in a guild.
    pub member: Option<InteractionMember>,
}

/// The handle of one interaction: what is needed to answer it, and whether
/// it has been answered yet.
#[derive(Debug)]
pub struct InteractionHandle {
    id: u64,
    token: String,
    app_permissions: Permissions,
    responded: bool,
}

/// What a handle holds, as plain values.
pub struct HandleView {
    /// The identifier of the interaction.
    pub id: u64,
    /// The token that authorizes answers to it.
    pub token: Seq<char>,
    /// The bits of the permissions that the bot has.
    pub app_permissions: u64,
    /// Whether an initial response was sent, and accepted.
    pub responded: bool,
}

impl View for InteractionHandle {
    type V = HandleView;

    closed spec fn view(&self) -> HandleView {
        HandleView {
            id: self.id,
            token: self.token@,
            app_permissions: self.app_permissions@,
            responded: self.responded,
        }
    }
}

/// The operations that answer an interaction.
pub enum Operation {
    /// Acknowledge now, answer later.
    Defer,
    /// Send a message.
    Reply,
    /// Offer suggestions for a command option.
    Autocomplete,
    /// Show a form.
    Modal,
}

/// The endpoint that `operation` calls on a handle whose flag is
/// `responded`, or `None` where it makes no call and fails. A reply goes to
/// the one endpoint or the other; the rest can only be the initial
/// response.
pub open spec fn routed(responded: bool, operation: Operation) -> Option<Endpoint> {
    match operation {
        Operation::Reply => Some(
            if responded {
                Endpoint::Followup
            } else {
                Endpoint::InitialResponse
            },
        ),
        _ => if responded {
            None
        } else {
            Some(Endpoint::InitialResponse)
        },
    }
}

/// The flag of a handle after a call to `endpoint` that began when the flag
/// was `responded`: it is set by an initial response that the remote side
/// accepted, and by nothing else, and it is never cleared.
pub open spec fn settled(responded: bool, endpoint: Endpoint, accepted: bool) -> bool {
    responded || (endpoint == Endpoint::InitialResponse && accepted)
}

/// Whether `dispatch` is a call that creates the initial response for the
/// interaction of `handle`, with the token of `handle`.
pub open spec fn creates_response(dispatch: Dispatch, handle: HandleView) -> bool {
    &&& dispatch matches Dispatch::CreateResponse { interaction_id, token, .. }
    &&& interaction_id == handle.id
    &&& token@ == handle.token
}

/// The handle of an interaction that has not been answered. Where the
/// interaction came without permissions, the handle holds all of them.
pub fn interaction_handle(interaction: &Interaction) -> (handle: InteractionHandle)
    ensures
        handle@ == (HandleView {
            id: interaction.id,
            token: interaction.token@,
            app_permissions: match interaction.app_permissions {
                Some(permissions) => permissions@,
                None => ALL_PERMISSION_BITS,
            },
            responded: false,
        }),
{
    let app_permissions = match interaction.app_permissions {
        Some(permissions) => permissions,
        None => Permissions::all(),
    };
    InteractionHandle {
        id: interaction.id,
        token: interaction.token.clone(),
        app_permissions,
        responded: false,
    }
}

impl InteractionHandle {
    /// The identifier of the interaction.
    pub fn id(&self) -> (id: u64)
        ensures
            id == self@.id,
    {
        self.id
    }

    /// The token that authorizes answers to the interaction.
    pub fn token(&self) -> (token: &String)
        ensures
            token@ == self@.token,
    {
        &self.token
    }

    /// The permissions that the bot has.
    pub fn app_permissions(&self) -> (permissions: Permissions)
        ensures
            permissions@ == self@.app_permissions,
    {
        self.app_permissions
    }

    /// Whether an initial response was sent, and accepted.
    pub fn responded(&self) -> (responded: bool)
        ensures
            responded == self@.responded,
    {
        self.responded
    }

    /// Checks that the bot has the required permissions. Fails with those
    /// that it lacks, if there are any. The handle is only read.
    pub fn check_permissions(&self, required_permissions: Permissions) -> (checked: Result<
        (),
        UserError,
    >)
        ensures
            checked is Ok <==> missing_bits(required_permissions@, self@.app_permissions) == 0,
            checked matches Err(error) ==> error matches UserError::MissingPermissions(missing)
                && missing@ == missing_bits(required_permissions@, self@.app_permissions),
    {
        check_granted(required_permissions, self.app_permissions)
    }

    /// Decides the call that defers the interaction: an acknowledgement that
    /// buys time for a later `reply`. It has to be the first answer; on a
    /// handle that was answered already, it fails and there is no call to
    /// make.
    pub fn defer(&self, ephemeral: bool) -> (decided: Result<Dispatch, InteractionError>)
        ensures
            decided is Ok <==> routed(self@.responded, Operation::Defer) is Some,
            decided matches Err(error) ==> error == InteractionError::AlreadyResponded,
            decided matches Ok(dispatch) ==> {
                &&& creates_response(dispatch, self@)
                &&& dispatch->response == deferral(ephemeral)
            },
    {
        if self.responded {
            return Err(InteractionError::AlreadyResponded);
        }
        let flags = if ephemeral {
            Some(MessageFlags::ephemeral())
        } else {
            None
        };
        let data = InteractionResponseData {
            allowed_mentions: None,
            attachments: None,
            choices: None,
            components: None,
            content: None,
            custom_id: None,
            embeds: None,
            flags,
            title: None,
            tts: None,
        };
        Ok(
            Dispatch::CreateResponse {
                interaction_id: self.id,
                token: self.token.clone(),
                response: InteractionResponse {
                    kind: InteractionResponseType::DeferredChannelMessageWithSource,
                    data: Some(data),
                },
            },
        )
    }

    /// Decides the call that sends `reply`: the initial response on a handle
    /// that was not answered yet, a followup on one that was. There is always
    /// a call to make.
    pub fn reply(&self, reply: Reply) -> (dispatch: Dispatch)
        ensures
            Some(dispatch.endpoint_of()) == routed(self@.responded, Operation::Reply),
            dispatch.token_of()@ == self@.token,
            dispatch matches Dispatch::CreateResponse { interaction_id, response, .. } ==> {
                &&& interaction_id == self@.id
                &&& is_message(response, reply)
            },
            dispatch matches Dispatch::CreateFollowup { followup, .. } ==> followup == followup_of(
                reply,
            ),
    {
        if self.responded {
            let content = if reply.content.as_str().is_empty() {
                None
            } else {
                Some(reply.content)
            };
            Dispatch::CreateFollowup {
                token: self.token.clone(),
                followup: Followup {
                    content,
                    allowed_mentions: reply.allowed_mentions,
                    embeds: reply.embeds,
                    components: reply.components,
                    attachments: reply.attachments,
                    flags: reply.flags,
                    tts: reply.tts,
                },
            }
        } else {
            let allowed_mentions = match reply.allowed_mentions {
                Some(inner) => inner,
                None => None,
            };
            let data = InteractionResponseData {
                content: Some(reply.content),
                embeds: Some(reply.embeds),
                components: Some(supplied_components(reply.components)),
                attachments: Some(reply.attachments),
                flags: Some(reply.flags),
                tts: Some(reply.tts),
                allowed_mentions,
                choices: None,
                custom_id: None,
                title: None,
            };
            Dispatch::CreateResponse {
                interaction_id: self.id,
                token: self.token.clone(),
                response: InteractionResponse {
                    kind: InteractionResponseType::ChannelMessageWithSource,
                    data: Some(data),
                },
            }
        }
    }

    /// Decides the call that answers with autocomplete suggestions. It has
    /// to be the first answer; on a handle that was answered already, it
    /// fails and there is no call to make.
    pub fn autocomplete(
        &self,
        choices: Vec<twilight_model::application::command::CommandOptionChoice>,
    ) -> (decided: Result<Dispatch, InteractionError>)
        ensures
            decided is Ok <==> routed(self@.responded, Operation::Autocomplete) is Some,
            decided matches Err(error) ==> error == InteractionError::AlreadyResponded,
            decided matches Ok(dispatch) ==> {
                &&& creates_response(dispatch, self@)
                &&& dispatch->response == suggestions(choices)
            },
    {
        if self.responded {
            return Err(InteractionError::AlreadyResponded);
        }
        let data = InteractionResponseData {
            choices: Some(choices),
            allowed_mentions: None,
            attachments: None,
            components: None,
            content: None,
            custom_id: None,
            embeds: None,
            flags: None,
            title: None,
            tts: None,
        };
        Ok(
            Dispatch::CreateResponse {
                interaction_id: self.id,
                token: self.token.clone(),
                response: InteractionResponse {
                    kind: InteractionResponseType::ApplicationCommandAutocompleteResult,
                    data: Some(data),
                },
            },
        )
    }

    /// Decides the call that answers with a modal, each text field in a row
    /// of its own. It has to be the first answer; on a handle that was
    /// answered already, it fails and there is no call to make.
    pub fn modal(
        &self,
        custom_id: String,
        title: String,
        text_inputs: Vec<twilight_model::channel::message::component::TextInput>,
    ) -> (decided: Result<Dispatch, InteractionError>)
        ensures
            decided is Ok <==> routed(self@.responded, Operation::Modal) is Some,
            decided matches Err(error) ==> error == InteractionError::AlreadyResponded,
            decided matches Ok(dispatch) ==> {
                &&& creates_response(dispatch, self@)
                &&& is_modal(dispatch->response, custom_id, title, text_inputs@)
            },
    {
        if self.responded {
            return Err(InteractionError::AlreadyResponded);
        }
        let data = InteractionResponseData {
            custom_id: Some(custom_id),
            title: Some(title),
            components: Some(input_rows(text_inputs)),
            allowed_mentions: None,
            attachments: None,
            choices: None,
            content: None,
            embeds: None,
            flags: None,
            tts: None,
        };
        Ok(
            Dispatch::CreateResponse {
                interaction_id: self.id,
                token: self.token.clone(),
                response: InteractionResponse {
                    kind: InteractionResponseType::Modal,
                    data: Some(data),
                },
            },
        )
    }

    /// Takes in what became of a call to `endpoint`. The flag is set if the
    /// call created the initial response and the remote side accepted it; a
    /// call that failed leaves the handle as it was, so the caller may try
    /// again. The outcome is handed back as it came.
    pub fn complete<E>(&mut self, endpoint: Endpoint, outcome: Result<(), E>) -> (surfaced: Result<
        (),
        E,
    >)
        ensures
            surfaced == outcome,
            final(self)@ == (HandleView {
                responded: settled(old(self)@.responded, endpoint, outcome is Ok),
                ..old(self)@
            }),
    {
        match endpoint {
            Endpoint::InitialResponse => {
                if outcome.is_ok() {
                    self.responded = true;
                }
            },
            Endpoint::Followup => {},
        }
        outcome
    }
}

} // verus!
