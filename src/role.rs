use vstd::prelude::*;
use crate::error::ErrorCode;

verus! {

/// A named capability held by zero or more principals.
#[derive(Clone, Copy, Debug, PartialEq, Eq, Structural, Hash)]
pub enum Role {
    Admin,
    FeeManager,
    EmergencyAdmin,
}

impl Role {
    /// The role that a numeric code names: 0, 1 and 2 in declaration order.
    pub open spec fn of_code(value: u8) -> Option<Role> {
        if value == 0 {
            Some(Role::Admin)
        } else if value == 1 {
            Some(Role::FeeManager)
        } else if value == 2 {
            Some(Role::EmergencyAdmin)
        } else {
            None
        }
    }

    pub fn from_u8(value: u8) -> (r: Result<Role, ErrorCode>)
        ensures
            match Role::of_code(value) {
                Some(role) => r == Ok::<Role, ErrorCode>(role),
                None => r == Err::<Role, ErrorCode>(ErrorCode::InvalidRole),
            },
    {
        match value {
            0 => Ok(Role::Admin),
            1 => Ok(Role::FeeManager),
            2 => Ok(Role::EmergencyAdmin),
            _ => Err(ErrorCode::InvalidRole),
        }
    }
}

} // verus!
