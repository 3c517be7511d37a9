//! Errors that are the fault of the one who invoked the interaction, or of
//! the setup they invoked it in.

use vstd::prelude::*;
use crate::permissions::Permissions;

verus! {

/// An error to show to the user rather than to log.
#[derive(Clone, Copy, Debug, PartialEq, Eq)]
pub enum UserError {
    /// The bot lacks permissions that the operation needs. Holds the
    /// permissions that are missing.
    MissingPermissions(Permissions),
}

/// The permissions of `required` that `granted` lacks.
pub open spec fn missing_bits(required: u64, granted: u64) -> u64 {
    required & !granted
}

/// Holds what is required against what is granted. Fails with the required
/// permissions that are not granted, if there are any.
pub fn check_granted(required: Permissions, granted: Permissions) -> (checked: Result<
    (),
    UserError,
>)
    ensures
        checked is Ok <==> missing_bits(required@, granted@) == 0,
        checked matches Err(error) ==> error matches UserError::MissingPermissions(missing)
            && missing@ == missing_bits(required@, granted@),
{
    let missing_permissions = required.difference(granted);
    if !missing_permissions.is_empty() {
        return Err(UserError::MissingPermissions(missing_permissions));
    }
    Ok(())
}

} // verus!
