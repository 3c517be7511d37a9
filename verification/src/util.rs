//! Small conveniences: pretty names for permissions, and the name and the
//! user of an interaction.

use std::fmt::Debug;
use vstd::prelude::*;
use crate::interaction::{Interaction, InteractionData};
use crate::permissions::{known_bits, Permissions};

verus! {

/// The text that twilight_model's `Debug` writes for the permission set
/// with the bits `bits`: the names of its flags in upper case, joined by
/// `" | "`.
pub uninterp spec fn flag_names(bits: u64) -> Seq<char>;

/// The text that `str::replace` makes of `text` when every match of
/// `pattern` gives way to `with`.
pub uninterp spec fn replaced(text: Seq<char>, pattern: Seq<char>, with: Seq<char>) -> Seq<char>;

/// The text that the titlecase crate makes of `text`.
pub uninterp spec fn title_cased(text: Seq<char>) -> Seq<char>;

/// `Debug` of twilight_model's `Permissions`, written to a `String`. The
/// set is made of `bits` with `from_bits_truncate`, which keeps defined bits
/// as they are; there are no others here.
#[verifier::external_body]
fn write_flag_names(bits: u64) -> (names: String)
    requires
        known_bits(bits),
    ensures
        names@ == flag_names(bits),
{
    format!("{:?}", twilight_model::guild::Permissions::from_bits_truncate(bits))
}

/// `str::replace` with a string as its pattern.
#[verifier::external_body]
fn replace(text: &str, pattern: &str, with: &str) -> (result: String)
    ensures
        result@ == replaced(text@, pattern@, with@),
{
    text.replace(pattern, with)
}

/// `titlecase::titlecase`.
#[verifier::external_body]
fn to_title_case(text: &str) -> (result: String)
    ensures
        result@ == title_cased(text@),
{
    titlecase::titlecase(text)
}

/// The pretty string of the permission set with the bits `bits`: nothing
/// for the empty set; else the names of its flags, one to a line, with
/// spaces for underscores, in title case.
pub open spec fn pretty_permissions(bits: u64) -> Seq<char> {
    if bits == 0 {
        Seq::empty()
    } else {
        title_cased(replaced(replaced(flag_names(bits), " | "@, "\n"@), "_"@, " "@))
    }
}

/// Implemented on types that can be turned into pretty strings.
pub trait Prettify: Debug {
    /// Return the pretty string for this type.
    fn prettify(&self) -> String;
}

impl Prettify for Permissions {
    fn prettify(&self) -> (pretty: String)
        ensures
            pretty@ == pretty_permissions(self@),
    {
        if self.is_empty() {
            return String::new();
        }
        let names = write_flag_names(self.bits());
        let lines = replace(names.as_str(), " | ", "\n");
        let spaced = replace(lines.as_str(), "_", " ");
        to_title_case(spaced.as_str())
    }
}

/// The name of the command that `interaction` invokes, or the custom
/// identifier of the component or modal that it comes from, where it has
/// one.
pub open spec fn name_of(interaction: Interaction) -> Option<Seq<char>> {
    match interaction.data {
        Some(InteractionData::ApplicationCommand { name }) => Some(name@),
        Some(InteractionData::MessageComponent { custom_id }) => Some(custom_id@),
        Some(InteractionData::ModalSubmit { custom_id }) => Some(custom_id@),
        _ => None,
    }
}

/// The user who invoked `interaction`: the one it names itself, else the
/// one behind its guild member.
pub open spec fn user_of(interaction: Interaction) -> Option<twilight_model::user::User> {
    match interaction.user {
        Some(user) => Some(user),
        None => match interaction.member {
            Some(member) => member.user,
            None => None,
        },
    }
}

impl Interaction {
    /// Return the name or custom ID of the interaction.
    pub fn name(&self) -> (name: Option<&str>)
        ensures
            name is Some <==> name_of(*self) is Some,
            name matches Some(text) ==> Some(text@) == name_of(*self),
    {
        match &self.data {
            Some(InteractionData::ApplicationCommand { name }) => Some(name.as_str()),
            Some(InteractionData::MessageComponent { custom_id }) => Some(custom_id.as_str()),
            Some(InteractionData::ModalSubmit { custom_id }) => Some(custom_id.as_str()),
            _ => None,
        }
    }

    /// Return the user of the interaction, whether it's in DMs or not.
    pub fn user(&self) -> (user: Option<&twilight_model::user::User>)
        ensures
            user is Some <==> user_of(*self) is Some,
            user matches Some(found) ==> Some(*found) == user_of(*self),
    {
        match &self.user {
            Some(user) => Some(user),
            None => match &self.member {
                Some(member) => member.user.as_ref(),
                None => None,
            },
        }
    }
}

} // verus!
