//! The ways in which an operation fails.

use vstd::prelude::*;

verus! {

/// Why an actor was refused.
#[derive(Clone, Copy, Debug, PartialEq, Eq, Structural)]
pub enum Denial {
    /// Only staff or admins create work orders.
    CreateNeedsStaffOrAdmin,
    /// Only admins or leads assign drivers and helpers.
    AssignNeedsAdminOrLead,
    /// A volunteer who is no driver changes neither status nor mileage.
    VolunteerUpdate,
    /// A driver moves an order only into the statuses open to drivers.
    DriverStatus,
    /// Only admins or leads reset passwords.
    ResetNeedsAdminOrLead,
    /// Only admins or leads create users.
    CreateUserNeedsAdminOrLead,
    /// Only admins or leads change what is on record of a user.
    UpdateUserNeedsAdminOrLead,
    /// The user is unknown, or the password is not theirs.
    BadCredentials,
    /// The password given as the current one is not the user's.
    WrongPassword,
}

/// What was wrong with a request.
#[derive(Clone, Copy, Debug, PartialEq, Eq, Structural)]
pub enum Invalid {
    /// The order would be closed without a mileage.
    MileageMissing,
    /// The status named is none that a work order has.
    UnknownStatus,
    /// A client has neither a first nor a last name.
    NameMissing,
    /// The name of a client comes to nothing.
    NameEmpty,
    /// A client of a like name lives at another address. The number is the
    /// place of the first such client among the clients of a like name.
    NameAtOtherAddress(usize),
    /// An edit would leave less on hand than is reserved, or less than
    /// nothing.
    QuantityBelowReserved,
    /// A login without a user name or without a password.
    CredentialsMissing,
    /// A change of password without user name, current or new password.
    PasswordChangeIncomplete,
    /// A reset of a password without the new password.
    NewPasswordMissing,
    /// A new user without a password.
    PasswordMissing,
    /// A new user without a first and a last name.
    FullNameMissing,
    /// A new user under a user name that is taken.
    UsernameTaken,
    /// No user name could be made that is free.
    NoFreeUsername,
    /// A date that is not written as year, month and day.
    DateFormat,
}

/// What was looked for and not found.
#[derive(Clone, Copy, Debug, PartialEq, Eq, Structural)]
pub enum Missing {
    WorkOrder,
    User,
}

/// The failure of an operation. Whatever the failure, nothing of the operation
/// is applied.
#[derive(Clone, Copy, Debug, PartialEq, Eq, Structural)]
pub enum Error {
    /// The actor's role or capability does not allow the operation.
    Forbidden(Denial),
    /// The request lacks or misstates something.
    Validation(Invalid),
    /// The entity does not exist, or was deleted.
    NotFound(Missing),
    /// The reservation would exceed what is available.
    InsufficientInventory,
    /// No inventory record stands for the wood stock.
    NoTrackedStock,
    /// The entity store failed.
    Store,
}

impl Error {
    /// The message shown to the caller.
    pub open spec fn message_text(self) -> Seq<char> {
        match self {
            Error::Forbidden(Denial::CreateNeedsStaffOrAdmin) =>
                "Only staff or admin may create work orders"@,
            Error::Forbidden(Denial::AssignNeedsAdminOrLead) =>
                "Only admins or leads can assign drivers/helpers"@,
            Error::Forbidden(Denial::VolunteerUpdate) => "Volunteers cannot update status/mileage"@,
            Error::Forbidden(Denial::DriverStatus) =>
                "Drivers can only mark in_progress, delivered, completed or issue"@,
            Error::Forbidden(Denial::ResetNeedsAdminOrLead) =>
                "Only admins or leads can reset passwords"@,
            Error::Forbidden(Denial::CreateUserNeedsAdminOrLead) =>
                "Only admins or leads can create users"@,
            Error::Forbidden(Denial::UpdateUserNeedsAdminOrLead) =>
                "Only admins or leads can update users"@,
            Error::Forbidden(Denial::BadCredentials) => "Invalid username or password"@,
            Error::Forbidden(Denial::WrongPassword) => "Current password is incorrect"@,
            Error::Validation(Invalid::MileageMissing) => "Mileage is required to mark completed"@,
            Error::Validation(Invalid::UnknownStatus) => "Unknown work order status"@,
            Error::Validation(Invalid::NameMissing) =>
                "Both 'first_name' and 'last_name' are required."@,
            Error::Validation(Invalid::NameEmpty) => "Name cannot be empty."@,
            Error::Validation(Invalid::NameAtOtherAddress(_)) =>
                "Name already exists at a different address"@,
            Error::Validation(Invalid::QuantityBelowReserved) =>
                "Quantity on hand cannot be negative or below the reserved quantity"@,
            Error::Validation(Invalid::CredentialsMissing) => "Username and password are required"@,
            Error::Validation(Invalid::PasswordChangeIncomplete) =>
                "Username, current password, and new password are required"@,
            Error::Validation(Invalid::NewPasswordMissing) => "New password is required"@,
            Error::Validation(Invalid::PasswordMissing) => "Password is required"@,
            Error::Validation(Invalid::FullNameMissing) =>
                "Full name (first and last) is required"@,
            Error::Validation(Invalid::UsernameTaken) => "Username already exists"@,
            Error::Validation(Invalid::NoFreeUsername) => "Could not generate unique username"@,
            Error::Validation(Invalid::DateFormat) => "Invalid date format"@,
            Error::NotFound(Missing::WorkOrder) => "Work order not found or has been deleted"@,
            Error::NotFound(Missing::User) => "User not found"@,
            Error::InsufficientInventory =>
                "Insufficient inventory for this work order status change."@,
            Error::NoTrackedStock =>
                "No wood inventory item found to adjust (add a wood inventory item)."@,
            Error::Store => "The entity store failed"@,
        }
    }

    pub fn message(&self) -> (text: String)
        ensures
            text@ == self.message_text(),
    {
        let text: &str = match self {
            Error::Forbidden(Denial::CreateNeedsStaffOrAdmin) =>
                "Only staff or admin may create work orders",
            Error::Forbidden(Denial::AssignNeedsAdminOrLead) =>
                "Only admins or leads can assign drivers/helpers",
            Error::Forbidden(Denial::VolunteerUpdate) => "Volunteers cannot update status/mileage",
            Error::Forbidden(Denial::DriverStatus) =>
                "Drivers can only mark in_progress, delivered, completed or issue",
            Error::Forbidden(Denial::ResetNeedsAdminOrLead) =>
                "Only admins or leads can reset passwords",
            Error::Forbidden(Denial::CreateUserNeedsAdminOrLead) =>
                "Only admins or leads can create users",
            Error::Forbidden(Denial::UpdateUserNeedsAdminOrLead) =>
                "Only admins or leads can update users",
            Error::Forbidden(Denial::BadCredentials) => "Invalid username or password",
            Error::Forbidden(Denial::WrongPassword) => "Current password is incorrect",
            Error::Validation(Invalid::MileageMissing) => "Mileage is required to mark completed",
            Error::Validation(Invalid::UnknownStatus) => "Unknown work order status",
            Error::Validation(Invalid::NameMissing) =>
                "Both 'first_name' and 'last_name' are required.",
            Error::Validation(Invalid::NameEmpty) => "Name cannot be empty.",
            Error::Validation(Invalid::NameAtOtherAddress(_)) =>
                "Name already exists at a different address",
            Error::Validation(Invalid::QuantityBelowReserved) =>
                "Quantity on hand cannot be negative or below the reserved quantity",
            Error::Validation(Invalid::CredentialsMissing) => "Username and password are required",
            Error::Validation(Invalid::PasswordChangeIncomplete) =>
                "Username, current password, and new password are required",
            Error::Validation(Invalid::NewPasswordMissing) => "New password is required",
            Error::Validation(Invalid::PasswordMissing) => "Password is required",
            Error::Validation(Invalid::FullNameMissing) => "Full name (first and last) is required",
            Error::Validation(Invalid::UsernameTaken) => "Username already exists",
            Error::Validation(Invalid::NoFreeUsername) => "Could not generate unique username",
            Error::Validation(Invalid::DateFormat) => "Invalid date format",
            Error::NotFound(Missing::WorkOrder) => "Work order not found or has been deleted",
            Error::NotFound(Missing::User) => "User not found",
            Error::InsufficientInventory =>
                "Insufficient inventory for this work order status change.",
            Error::NoTrackedStock =>
                "No wood inventory item found to adjust (add a wood inventory item).",
            Error::Store => "The entity store failed",
        };
        text.to_owned()
    }
}

} // verus!
