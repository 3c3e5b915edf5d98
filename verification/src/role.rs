//! The roles of the people who use the system, and what each may do.

use vstd::prelude::*;
use crate::text::{lowercase, opt_text, str_eq, to_lowercase};

verus! {

/// The role of an actor.
#[derive(Clone, Copy, Debug, PartialEq, Eq, Structural)]
pub enum UserRole {
    Admin,
    Lead,
    Staff,
    Driver,
    Volunteer,
}

/// The role that a lowercase name stands for, if any.
pub open spec fn role_named(lower: Seq<char>) -> Option<UserRole> {
    if lower == "admin"@ {
        Some(UserRole::Admin)
    } else if lower == "lead"@ {
        Some(UserRole::Lead)
    } else if lower == "staff"@ {
        Some(UserRole::Staff)
    } else if lower == "driver"@ {
        Some(UserRole::Driver)
    } else if lower == "volunteer"@ {
        Some(UserRole::Volunteer)
    } else {
        None
    }
}

/// The role name that a command works with: the name given, in lowercase, or
/// `admin` where none is given.
pub open spec fn role_text(given: Option<Seq<char>>) -> Seq<char> {
    match given {
        Some(name) => lowercase(name),
        None => "admin"@,
    }
}

/// Who may create a work order: admins and staff.
pub open spec fn may_create_orders(role: Option<UserRole>) -> bool {
    role == Some(UserRole::Admin) || role == Some(UserRole::Staff)
}

/// Who may assign drivers and helpers: admins and leads.
pub open spec fn may_assign(role: Option<UserRole>) -> bool {
    role == Some(UserRole::Admin) || role == Some(UserRole::Lead)
}

/// Who is shown only the rows they are assigned to: every driver-capable actor,
/// and every volunteer.
pub open spec fn sees_only_assigned(role: Option<UserRole>, driver_capable: bool) -> bool {
    driver_capable || role == Some(UserRole::Volunteer)
}

/// Who is shown protected client information unmasked: admins, and leads with a
/// HIPAA certification.
pub open spec fn sees_protected(role: Option<UserRole>, hipaa_certified: bool) -> bool {
    role == Some(UserRole::Admin) || (role == Some(UserRole::Lead) && hipaa_certified)
}

impl UserRole {
    /// The name of the role.
    pub open spec fn name(self) -> Seq<char> {
        match self {
            UserRole::Admin => "admin"@,
            UserRole::Lead => "lead"@,
            UserRole::Staff => "staff"@,
            UserRole::Driver => "driver"@,
            UserRole::Volunteer => "volunteer"@,
        }
    }

    pub fn as_str(&self) -> (name: &'static str)
        ensures
            name@ == self.name(),
    {
        match self {
            UserRole::Admin => "admin",
            UserRole::Lead => "lead",
            UserRole::Staff => "staff",
            UserRole::Driver => "driver",
            UserRole::Volunteer => "volunteer",
        }
    }

    /// The role that a name in lowercase stands for; `None` for any other text.
    pub fn from_lowercase(lower: &str) -> (role: Option<UserRole>)
        ensures
            role == role_named(lower@),
    {
        if str_eq(lower, "admin") {
            Some(UserRole::Admin)
        } else if str_eq(lower, "lead") {
            Some(UserRole::Lead)
        } else if str_eq(lower, "staff") {
            Some(UserRole::Staff)
        } else if str_eq(lower, "driver") {
            Some(UserRole::Driver)
        } else if str_eq(lower, "volunteer") {
            Some(UserRole::Volunteer)
        } else {
            None
        }
    }

    /// The role that a name stands for, whatever its case.
    pub fn parse(text: &str) -> (role: Option<UserRole>)
        ensures
            role == role_named(lowercase(text@)),
    {
        let lower = to_lowercase(text);
        UserRole::from_lowercase(lower.as_str())
    }
}

/// The role name that a command works with (see `role_text`).
pub fn normalize_role(given: &Option<String>) -> (name: String)
    ensures
        name@ == role_text(opt_text(*given)),
{
    match given {
        Some(name) => to_lowercase(name.as_str()),
        None => "admin".to_owned(),
    }
}

pub fn can_create_orders(role: Option<UserRole>) -> (allowed: bool)
    ensures
        allowed == may_create_orders(role),
{
    match role {
        Some(UserRole::Admin) | Some(UserRole::Staff) => true,
        _ => false,
    }
}

pub fn can_assign(role: Option<UserRole>) -> (allowed: bool)
    ensures
        allowed == may_assign(role),
{
    match role {
        Some(UserRole::Admin) | Some(UserRole::Lead) => true,
        _ => false,
    }
}

pub fn is_limited_to_assigned(role: Option<UserRole>, driver_capable: bool) -> (limited: bool)
    ensures
        limited == sees_only_assigned(role, driver_capable),
{
    driver_capable || match role {
        Some(UserRole::Volunteer) => true,
        _ => false,
    }
}

pub fn can_see_protected(role: Option<UserRole>, hipaa_certified: bool) -> (allowed: bool)
    ensures
        allowed == sees_protected(role, hipaa_certified),
{
    match role {
        Some(UserRole::Admin) => true,
        Some(UserRole::Lead) => hipaa_certified,
        _ => false,
    }
}

/// Every role is found again from its name, and no two roles share a name.
pub proof fn lemma_role_name_round_trip(role: UserRole)
    ensures
        role_named(role.name()) == Some(role),
{
    reveal_strlit("admin");
    reveal_strlit("lead");
    reveal_strlit("staff");
    reveal_strlit("driver");
    reveal_strlit("volunteer");
    assert("admin"@[0] == 'a');
    assert("lead"@[0] == 'l');
    assert("staff"@[0] == 's');
    assert("driver"@[0] == 'd');
    assert("volunteer"@[0] == 'v');
}

/// The name that a command works with: the name given, or the empty name.
pub open spec fn username_text(given: Option<Seq<char>>) -> Seq<char> {
    match given {
        Some(name) => name,
        None => Seq::empty(),
    }
}

/// The flag that a command works with: the flag given, or `false`.
pub open spec fn flag_value(given: Option<bool>) -> bool {
    match given {
        Some(flag) => flag,
        None => false,
    }
}

/// The name given, or the empty name.
pub fn username_or_empty(given: &Option<String>) -> (name: String)
    ensures
        name@ == username_text(opt_text(*given)),
{
    match given {
        Some(name) => name.clone(),
        None => String::new(),
    }
}

/// The flag given, or `false`.
pub fn flag_or_false(given: Option<bool>) -> (flag: bool)
    ensures
        flag == flag_value(given),
{
    match given {
        Some(flag) => flag,
        None => false,
    }
}

} // verus!
