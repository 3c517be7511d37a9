use sparkle_convenience::interaction::{Interaction, InteractionData, InteractionMember};
use sparkle_convenience::permissions::Permissions;
use sparkle_convenience::util::Prettify;
use twilight_model::guild::Permissions as ModelPermissions;
use twilight_model::id::Id;
use twilight_model::user::User;

fn user_named(name: &str, id: u64) -> User {
    User {
        accent_color: None,
        avatar: None,
        avatar_decoration: None,
        banner: None,
        bot: false,
        discriminator: 1,
        email: None,
        flags: None,
        global_name: None,
        id: Id::new(id),
        locale: None,
        mfa_enabled: None,
        name: name.to_owned(),
        premium_type: None,
        public_flags: None,
        system: None,
        verified: None,
    }
}

fn interaction_about(data: Option<InteractionData>) -> Interaction {
    Interaction {
        id: 1,
        token: "token".to_owned(),
        app_permissions: None,
        data,
        user: None,
        member: None,
    }
}

#[test]
fn prettify_empty_permissions() {
    assert_eq!(Permissions::empty().prettify(), "");
}

#[test]
fn prettify_one_permission() {
    let permissions =
        Permissions::from_bits_truncate(ModelPermissions::READ_MESSAGE_HISTORY.bits());
    assert_eq!(permissions.prettify(), "Read Message History");
}

#[test]
fn prettify_two_permissions() {
    let permissions = Permissions::from_bits_truncate(
        (ModelPermissions::READ_MESSAGE_HISTORY | ModelPermissions::ADD_REACTIONS).bits(),
    );
    assert_eq!(permissions.prettify(), "Add Reactions\nRead Message History");
}

#[test]
fn prettify_three_permissions_in_bit_order() {
    let permissions = Permissions::from_bits_truncate((1 << 1) | (1 << 2) | (1 << 40));
    assert_eq!(permissions.prettify(), "Kick Members\nBan Members\nModerate Members");
}

#[test]
fn name_of_a_command() {
    let interaction =
        interaction_about(Some(InteractionData::ApplicationCommand { name: "ping".to_owned() }));
    assert_eq!(interaction.name(), Some("ping"));
}

#[test]
fn name_of_a_component() {
    let interaction = interaction_about(Some(InteractionData::MessageComponent {
        custom_id: "confirm".to_owned(),
    }));
    assert_eq!(interaction.name(), Some("confirm"));
}

#[test]
fn name_of_a_modal() {
    let interaction =
        interaction_about(Some(InteractionData::ModalSubmit { custom_id: "form".to_owned() }));
    assert_eq!(interaction.name(), Some("form"));
}

#[test]
fn name_of_anything_else() {
    assert_eq!(interaction_about(Some(InteractionData::Other)).name(), None);
    assert_eq!(interaction_about(None).name(), None);
}

#[test]
fn user_in_a_direct_message() {
    let mut interaction = interaction_about(None);
    interaction.user = Some(user_named("direct", 7));
    interaction.member = Some(InteractionMember { user: Some(user_named("member", 8)) });
    assert_eq!(interaction.user(), Some(&user_named("direct", 7)));
}

#[test]
fn user_in_a_guild() {
    let mut interaction = interaction_about(None);
    interaction.member = Some(InteractionMember { user: Some(user_named("member", 8)) });
    assert_eq!(interaction.user(), Some(&user_named("member", 8)));
}

#[test]
fn user_that_is_not_there() {
    let mut interaction = interaction_about(None);
    assert_eq!(interaction.user(), None);
    interaction.member = Some(InteractionMember { user: None });
    assert_eq!(interaction.user(), None);
}
