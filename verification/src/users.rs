//! The rules of user accounts: who may manage them, how a login is checked,
//! how a user name is found for a new user, and when a user counts as a
//! driver.

use vstd::prelude::*;
use vstd::string::StrSliceExecFns;
use crate::audit::{event_row, AuditLog};
use crate::error::{Denial, Error, Invalid, Missing};
use crate::ident::{fresh_id, is_uuid_text};
use crate::role::{can_assign, flag_or_false, flag_value, may_assign, normalize_role, role_named,
    role_text, UserRole};
use crate::text::{decimal_text, is_white_space, join_texts, lowercase, number_text, opt_text,
    remove_chars, str_eq, texts_of, to_lowercase, trim_text, trimmed, without_chars};

verus! {

/// Whether a password is the one that a bcrypt hash was made of, as
/// `bcrypt::verify` finds it; `None` where the hash is none that the crate
/// can read.
pub uninterp spec fn bcrypt_accepts(password: Seq<char>, hash: Seq<char>) -> Option<bool>;

/// A word that has been read to its end, as a list of one word; no word
/// where nothing has been read.
pub open spec fn word_read(word: Seq<char>) -> Seq<Seq<char>> {
    if word.len() > 0 {
        seq![word]
    } else {
        Seq::empty()
    }
}

/// The words of what follows a word that has been read in part: white space
/// ends the word, any other character goes on with it.
pub open spec fn words_after(word: Seq<char>, text: Seq<char>) -> Seq<Seq<char>>
    decreases text.len(),
{
    if text.len() == 0 {
        word_read(word)
    } else if is_white_space(text.first()) {
        word_read(word) + words_after(Seq::empty(), text.drop_first())
    } else {
        words_after(word.push(text.first()), text.drop_first())
    }
}

/// The words of a text: the parts between white space, none of them empty.
pub open spec fn words(text: Seq<char>) -> Seq<Seq<char>> {
    words_after(Seq::empty(), text)
}

/// Calls `bcrypt::verify`. Trusted: the answer depends on the password and
/// the hash alone, and an error of the crate is given as `None`.
#[verifier::external_body]
pub(crate) fn verify_password(password: &str, hash: &str) -> (accepted: Option<bool>)
    ensures
        accepted == bcrypt_accepts(password@, hash@),
{
    bcrypt::verify(password, hash).ok()
}

/// Calls `bcrypt::hash` with the default cost of the crate. Trusted: a hash
/// that comes back is one that `bcrypt::verify` accepts for the password.
/// Which hash it is stays open, for the salt is random; `None` stands for an
/// error of the crate, which it reports where no random salt can be had.
#[verifier::external_body]
pub(crate) fn hash_password(password: &str) -> (hash: Option<String>)
    ensures
        hash matches Some(text) ==> bcrypt_accepts(password@, text@) == Some(true),
{
    bcrypt::hash(password, bcrypt::DEFAULT_COST).ok()
}

/// Calls `str::split_whitespace` and gathers the words. Trusted: they are
/// the parts of the text between white space, none of them empty, where white
/// space is what `is_white_space` says.
#[verifier::external_body]
pub(crate) fn split_words(text: &str) -> (parts: Vec<String>)
    ensures
        texts_of(parts@) == words(text@),
{
    text.split_whitespace().map(|word| word.to_string()).collect()
}

/// Who may manage users: admins and leads.
pub open spec fn may_manage_users(role: Option<UserRole>) -> bool {
    may_assign(role)
}

/// The request to log in.
#[derive(Clone, Debug, PartialEq, Eq)]
pub struct LoginInput {
    pub username: String,
    pub password: String,
}

/// What is on record of a user who can log in.
#[derive(Clone, Debug, PartialEq, Eq)]
pub struct AuthRecord {
    pub user_id: String,
    pub name: String,
    pub username: String,
    pub role: String,
    pub email: Option<String>,
    pub telephone: Option<String>,
    pub hipaa_certified: i64,
    pub is_driver: i64,
    /// The bcrypt hash of the password.
    pub password: String,
}

/// What a user learns on logging in: who they are and what they may do.
#[derive(Clone, Debug, PartialEq, Eq)]
pub struct LoginResponse {
    pub user_id: String,
    pub name: String,
    pub username: String,
    pub role: String,
    pub email: Option<String>,
    pub telephone: Option<String>,
    pub hipaa_certified: i64,
    pub is_driver: i64,
}

/// The request to change one's password.
#[derive(Clone, Debug, PartialEq, Eq)]
pub struct ChangePasswordInput {
    pub username: String,
    pub current_password: String,
    pub new_password: String,
}

/// The request to set the password of another user.
#[derive(Clone, Debug, PartialEq, Eq)]
pub struct ResetPasswordInput {
    pub user_id: String,
    pub new_password: String,
}

/// The request to create a user.
#[derive(Clone, Debug, PartialEq, Eq)]
pub struct CreateUserInput {
    pub name: String,
    pub email: String,
    pub telephone: String,
    /// The user name; one is made of the name where none is given.
    pub username: Option<String>,
    pub password: String,
    pub physical_address_line1: String,
    pub physical_address_line2: String,
    pub physical_address_city: String,
    pub physical_address_state: String,
    pub physical_address_postal_code: String,
    pub mailing_address_line1: String,
    pub mailing_address_line2: String,
    pub mailing_address_city: String,
    pub mailing_address_state: String,
    pub mailing_address_postal_code: String,
    pub role: String,
    pub is_driver: bool,
}

/// The request to change what is on record of a user's availability, licence
/// and certifications.
#[derive(Clone, Debug, PartialEq, Eq)]
pub struct UserUpdateInput {
    pub id: String,
    pub availability_notes: Option<String>,
    pub availability_schedule: Option<String>,
    pub driver_license_status: Option<String>,
    pub driver_license_number: Option<String>,
    pub driver_license_expires_on: Option<String>,
    pub vehicle: Option<String>,
    pub hipaa_certified: Option<bool>,
    pub is_driver: Option<bool>,
}

/// What is stored of a user's licence and certifications.
#[derive(Clone, Debug, PartialEq, Eq)]
pub struct UserFlags {
    pub driver_license_status: Option<String>,
    pub driver_license_expires_on: Option<String>,
    pub is_driver: bool,
    pub hipaa_certified: bool,
}

/// The user name under which a login is looked up: without surrounding white
/// space and in lowercase.
pub open spec fn login_name(username: Seq<char>) -> Seq<char> {
    lowercase(trimmed(username))
}

/// The user name and the password of a login, as they are used; an error
/// where one of them is empty.
pub fn login_lookup(input: &LoginInput) -> (outcome: Result<(String, String), Error>)
    ensures
        match outcome {
            Ok(pair) => {
                &&& pair.0@ == login_name(input.username@)
                &&& pair.1@ == trimmed(input.password@)
                &&& pair.0@.len() > 0
                &&& pair.1@.len() > 0
            },
            Err(error) => {
                &&& error == Error::Validation(Invalid::CredentialsMissing)
                &&& login_name(input.username@).len() == 0 || trimmed(input.password@).len() == 0
            },
        },
{
    let short = trim_text(input.username.as_str());
    let username = to_lowercase(short.as_str());
    let password = trim_text(input.password.as_str());
    if username.as_str().unicode_len() == 0 || password.as_str().unicode_len() == 0 {
        return Err(Error::Validation(Invalid::CredentialsMissing));
    }
    Ok((username, password))
}

/// What a login comes to for the record found under the user name and the
/// answer of bcrypt: bad credentials where there is no record or the password
/// is another, a failure of the store where the hash on record cannot be
/// read.
pub open spec fn login_refusal(found: bool, accepted: Option<bool>) -> Option<Error> {
    if !found {
        Some(Error::Forbidden(Denial::BadCredentials))
    } else {
        match accepted {
            None => Some(Error::Store),
            Some(false) => Some(Error::Forbidden(Denial::BadCredentials)),
            Some(true) => None,
        }
    }
}

/// Whether a response says of the user what is on record of them.
pub open spec fn carries(response: LoginResponse, record: AuthRecord) -> bool {
    &&& response.user_id == record.user_id
    &&& response.name == record.name
    &&& response.username == record.username
    &&& response.role == record.role
    &&& response.email == record.email
    &&& response.telephone == record.telephone
    &&& response.hipaa_certified == record.hipaa_certified
    &&& response.is_driver == record.is_driver
}

/// Decides a login for a record and the answer of bcrypt to the password.
pub fn decide_login(found: Option<AuthRecord>, accepted: Option<bool>) -> (outcome: Result<
    LoginResponse,
    Error,
>)
    ensures
        match login_refusal(found is Some, accepted) {
            Some(error) => outcome == Err::<LoginResponse, Error>(error),
            None => outcome matches Ok(response) && carries(response, found->0),
        },
{
    let record = match found {
        Some(record) => record,
        None => {
            return Err(Error::Forbidden(Denial::BadCredentials));
        },
    };
    match accepted {
        None => Err(Error::Store),
        Some(false) => Err(Error::Forbidden(Denial::BadCredentials)),
        Some(true) => Ok(
            LoginResponse {
                user_id: record.user_id,
                name: record.name,
                username: record.username,
                role: record.role,
                email: record.email,
                telephone: record.telephone,
                hipaa_certified: record.hipaa_certified,
                is_driver: record.is_driver,
            },
        ),
    }
}

/// The answer of bcrypt to a password, for the record found.
pub open spec fn password_check(found: Option<AuthRecord>, password: Seq<char>) -> Option<bool> {
    match found {
        Some(record) => bcrypt_accepts(password, record.password@),
        None => None,
    }
}

/// Logs a user in. `found` is the record under the user name, or `None`
/// where there is none; `password` is the password as `login_lookup` gave it.
pub fn login_user(found: Option<AuthRecord>, password: &str) -> (outcome: Result<LoginResponse, Error>)
    ensures
        match login_refusal(found is Some, password_check(found, password@)) {
            Some(error) => outcome == Err::<LoginResponse, Error>(error),
            None => outcome matches Ok(response) && carries(response, found->0),
        },
{
    let accepted = match &found {
        Some(record) => verify_password(password, record.password.as_str()),
        None => None,
    };
    decide_login(found, accepted)
}

/// The user name, the current and the new password of a change of password,
/// as they are used; an error where one of them is empty.
pub fn change_password_lookup(input: &ChangePasswordInput) -> (outcome: Result<
    (String, String, String),
    Error,
>)
    ensures
        match outcome {
            Ok(parts) => {
                &&& parts.0@ == login_name(input.username@)
                &&& parts.1@ == trimmed(input.current_password@)
                &&& parts.2@ == trimmed(input.new_password@)
                &&& parts.0@.len() > 0 && parts.1@.len() > 0 && parts.2@.len() > 0
            },
            Err(error) => {
                &&& error == Error::Validation(Invalid::PasswordChangeIncomplete)
                &&& login_name(input.username@).len() == 0 || trimmed(
                    input.current_password@,
                ).len() == 0 || trimmed(input.new_password@).len() == 0
            },
        },
{
    let short = trim_text(input.username.as_str());
    let username = to_lowercase(short.as_str());
    let current = trim_text(input.current_password.as_str());
    let new = trim_text(input.new_password.as_str());
    if username.as_str().unicode_len() == 0 || current.as_str().unicode_len() == 0
        || new.as_str().unicode_len() == 0 {
        return Err(Error::Validation(Invalid::PasswordChangeIncomplete));
    }
    Ok((username, current, new))
}

/// Why a change of password is turned down, for the answer of bcrypt to the
/// current password: the hash on record cannot be read, or the password is
/// another.
pub open spec fn current_password_refusal(accepted: Option<bool>) -> Option<Error> {
    match accepted {
        None => Some(Error::Store),
        Some(false) => Some(Error::Forbidden(Denial::WrongPassword)),
        Some(true) => None,
    }
}

/// Why a change of password is turned down: the user is not on record, the
/// hash on record cannot be read, or the current password is another.
pub open spec fn password_change_refusal(stored_hash: Option<Seq<char>>, current: Seq<char>) -> Option<
    Error,
> {
    match stored_hash {
        None => Some(Error::NotFound(Missing::User)),
        Some(hash) => current_password_refusal(bcrypt_accepts(current, hash)),
    }
}

/// Why a change of password is turned down, for the answer of bcrypt to the
/// current password (see `current_password_refusal`).
pub fn check_current_password(accepted: Option<bool>) -> (refusal: Option<Error>)
    ensures
        refusal == current_password_refusal(accepted),
{
    match accepted {
        None => Some(Error::Store),
        Some(false) => Some(Error::Forbidden(Denial::WrongPassword)),
        Some(true) => None,
    }
}

/// Changes a password: gives the hash of the new password to store.
/// `stored_hash` is the hash on record for the user, or `None` where the user
/// is not on record. Where bcrypt cannot make a hash, the store counts as
/// failed.
pub fn change_password(stored_hash: Option<String>, current: &str, new: &str) -> (outcome: Result<
    String,
    Error,
>)
    ensures
        match password_change_refusal(opt_text(stored_hash), current@) {
            Some(error) => outcome == Err::<String, Error>(error),
            None => match outcome {
                Ok(hash) => bcrypt_accepts(new@, hash@) == Some(true),
                Err(error) => error == Error::Store,
            },
        },
{
    let hash = match stored_hash {
        Some(hash) => hash,
        None => {
            return Err(Error::NotFound(Missing::User));
        },
    };
    match check_current_password(verify_password(current, hash.as_str())) {
        Some(error) => Err(error),
        None => match hash_password(new) {
            Some(made) => Ok(made),
            None => Err(Error::Store),
        },
    }
}

/// Why a reset of a password is turned down: the role may not manage users,
/// or the new password is empty.
pub open spec fn reset_refusal(role: Option<UserRole>, new_password: Seq<char>) -> Option<Error> {
    if !may_manage_users(role) {
        Some(Error::Forbidden(Denial::ResetNeedsAdminOrLead))
    } else if trimmed(new_password).len() == 0 {
        Some(Error::Validation(Invalid::NewPasswordMissing))
    } else {
        None
    }
}

/// Sets the password of another user: gives the hash to store. A role that
/// is not given counts as `admin`. Where bcrypt cannot make a hash, the store
/// counts as failed.
pub fn reset_password(input: &ResetPasswordInput, role: Option<String>) -> (outcome: Result<String, Error>)
    ensures
        match reset_refusal(role_named(role_text(opt_text(role))), input.new_password@) {
            Some(error) => outcome == Err::<String, Error>(error),
            None => match outcome {
                Ok(hash) => bcrypt_accepts(trimmed(input.new_password@), hash@) == Some(true),
                Err(error) => error == Error::Store,
            },
        },
{
    let role_name = normalize_role(&role);
    if !can_assign(UserRole::from_lowercase(role_name.as_str())) {
        return Err(Error::Forbidden(Denial::ResetNeedsAdminOrLead));
    }
    let password = trim_text(input.new_password.as_str());
    if password.as_str().unicode_len() == 0 {
        return Err(Error::Validation(Invalid::NewPasswordMissing));
    }
    match hash_password(password.as_str()) {
        Some(hash) => Ok(hash),
        None => Err(Error::Store),
    }
}

/// A text as it is stored of a licence: without surrounding white space, and
/// absent where nothing is left.
pub open spec fn cleaned(given: Option<Seq<char>>) -> Option<Seq<char>> {
    match given {
        Some(text) => if trimmed(text).len() == 0 {
            None
        } else {
            Some(trimmed(text))
        },
        None => None,
    }
}

/// Whether a user counts as a driver: they are meant to be one, and both the
/// status of their licence and the day it expires are on record.
pub open spec fn counts_as_driver(
    wanted: Option<bool>,
    license_status: Option<Seq<char>>,
    license_expires_on: Option<Seq<char>>,
) -> bool {
    flag_value(wanted) && cleaned(license_status) is Some && cleaned(license_expires_on) is Some
}

/// A text as it is stored of a licence (see `cleaned`).
pub fn clean_text(given: &Option<String>) -> (kept: Option<String>)
    ensures
        opt_text(kept) == cleaned(opt_text(*given)),
{
    match given {
        Some(text) => {
            let short = trim_text(text.as_str());
            if short.as_str().unicode_len() == 0 {
                None
            } else {
                Some(short)
            }
        },
        None => None,
    }
}

/// Changes what is on record of a user's licence and certifications.
///
/// Only an admin or a lead may do so; a role that is not given counts as
/// `admin`. The change is noted in the audit log. The user counts as a driver
/// only with a licence on record (see `counts_as_driver`).
pub fn update_user_flags(input: &UserUpdateInput, role: Option<String>, log: &mut AuditLog) -> (outcome:
    Result<UserFlags, Error>)
    ensures
        ({
            let role_name = role_text(opt_text(role));
            if may_manage_users(role_named(role_name)) {
                &&& outcome matches Ok(flags)
                &&& opt_text(flags.driver_license_status) == cleaned(
                    opt_text(input.driver_license_status),
                )
                &&& opt_text(flags.driver_license_expires_on) == cleaned(
                    opt_text(input.driver_license_expires_on),
                )
                &&& flags.is_driver == counts_as_driver(
                    input.is_driver,
                    opt_text(input.driver_license_status),
                    opt_text(input.driver_license_expires_on),
                )
                &&& flags.hipaa_certified == flag_value(input.hipaa_certified)
                &&& final(log)@ == old(log)@.push(
                    event_row("update_user_flags"@, role_name, "unknown"@),
                )
            } else {
                &&& outcome == Err::<UserFlags, Error>(
                    Error::Forbidden(Denial::UpdateUserNeedsAdminOrLead),
                )
                &&& final(log)@ == old(log)@
            }
        }),
        old(log).well_formed() ==> final(log).well_formed(),
{
    let role_name = normalize_role(&role);
    if !can_assign(UserRole::from_lowercase(role_name.as_str())) {
        return Err(Error::Forbidden(Denial::UpdateUserNeedsAdminOrLead));
    }
    log.record_event("update_user_flags", role_name.as_str(), "unknown");
    let driver_license_status = clean_text(&input.driver_license_status);
    let driver_license_expires_on = clean_text(&input.driver_license_expires_on);
    let is_driver: bool = flag_or_false(input.is_driver) && driver_license_status.is_some()
        && driver_license_expires_on.is_some();
    Ok(
        UserFlags {
            driver_license_status,
            driver_license_expires_on,
            is_driver,
            hipaa_certified: flag_or_false(input.hipaa_certified),
        },
    )
}

/// The first and the last of the words of a name, of which there must be two
/// at least.
pub open spec fn outer_words(parts: Seq<Seq<char>>) -> Option<(Seq<char>, Seq<char>)> {
    if parts.len() < 2 {
        None
    } else {
        Some((parts.first(), parts.last()))
    }
}

/// The first and the last name of a new user: the first and the last word of
/// the name, of which there must be two at least.
pub open spec fn name_parts(name: Seq<char>) -> Option<(Seq<char>, Seq<char>)> {
    outer_words(words(name))
}

/// The first and the last of the words of a name (see `outer_words`).
pub fn first_and_last(parts: &Vec<String>) -> (outer: Option<(String, String)>)
    ensures
        match outer {
            Some(pair) => outer_words(texts_of(parts@)) == Some((pair.0@, pair.1@)),
            None => outer_words(texts_of(parts@)) is None,
        },
{
    if parts.len() < 2 {
        return None;
    }
    assert(texts_of(parts@)[0] == parts@[0]@);
    assert(texts_of(parts@)[parts@.len() - 1] == parts@[parts@.len() - 1]@);
    Some((parts[0].clone(), parts[parts.len() - 1].clone()))
}

/// Why a new user is turned down before a user name is found: the role may
/// not manage users, or the name is not a first and a last name.
pub open spec fn new_user_refusal(role: Option<UserRole>, name: Seq<char>) -> Option<Error> {
    if !may_manage_users(role) {
        Some(Error::Forbidden(Denial::CreateUserNeedsAdminOrLead))
    } else if name_parts(name) is None {
        Some(Error::Validation(Invalid::FullNameMissing))
    } else {
        None
    }
}

/// The first and the last name of a new user. Only an admin or a lead may
/// create users; a role that is not given counts as `admin`.
pub fn new_user_names(input: &CreateUserInput, role: Option<String>) -> (outcome: Result<
    (String, String),
    Error,
>)
    ensures
        match new_user_refusal(role_named(role_text(opt_text(role))), input.name@) {
            Some(error) => outcome == Err::<(String, String), Error>(error),
            None => outcome matches Ok(parts) && name_parts(input.name@) == Some(
                (parts.0@, parts.1@),
            ),
        },
{
    let role_name = normalize_role(&role);
    if !can_assign(UserRole::from_lowercase(role_name.as_str())) {
        return Err(Error::Forbidden(Denial::CreateUserNeedsAdminOrLead));
    }
    let parts = split_words(input.name.as_str());
    match first_and_last(&parts) {
        Some(pair) => Ok(pair),
        None => Err(Error::Validation(Invalid::FullNameMissing)),
    }
}

/// A text without its spaces and hyphens.
pub open spec fn without_separators(text: Seq<char>) -> Seq<char> {
    without_chars(text, ' ', '-')
}

/// The first letter of a name in lowercase, or a space where the name is
/// empty.
pub open spec fn initial(first_name: Seq<char>) -> Seq<char> {
    if first_name.len() == 0 {
        lowercase(seq![' '])
    } else {
        lowercase(first_name.subrange(0, 1))
    }
}

/// The user name that is tried first for a new user: the initial of the first
/// name and the last name, in lowercase and without spaces and hyphens.
pub open spec fn base_name(first_name: Seq<char>, last_name: Seq<char>) -> Seq<char> {
    initial(first_name) + without_separators(lowercase(last_name))
}

/// A text without its spaces and hyphens.
pub fn strip_separators(text: &str) -> (kept: String)
    ensures
        kept@ == without_separators(text@),
{
    remove_chars(text, ' ', '-')
}

/// The user name that is tried first for a new user (see `base_name`).
pub fn base_username(first_name: &str, last_name: &str) -> (name: String)
    ensures
        name@ == base_name(first_name@, last_name@),
{
    proof {
        reveal_strlit(" ");
        assert(" "@ =~= seq![' ']);
    }
    let start = if first_name.unicode_len() == 0 {
        to_lowercase(" ")
    } else {
        to_lowercase(first_name.substring_char(0, 1))
    };
    let lower = to_lowercase(last_name);
    let rest = strip_separators(lower.as_str());
    join_texts(start.as_str(), rest.as_str())
}

/// Whether a user name is among those taken.
pub open spec fn is_taken(taken: Seq<Seq<char>>, name: Seq<char>) -> bool {
    exists|i: int| 0 <= i < taken.len() && #[trigger] taken[i] == name
}

/// The user name with a number behind it.
pub open spec fn numbered(base: Seq<char>, number: int) -> Seq<char> {
    base + decimal_text(number)
}

/// Whether `number` is the first number from 1 to 99 that makes a free user
/// name.
pub open spec fn is_first_free(taken: Seq<Seq<char>>, base: Seq<char>, number: int) -> bool {
    &&& 1 <= number < 100
    &&& !is_taken(taken, numbered(base, number))
    &&& forall|n: int| 1 <= n < number ==> is_taken(taken, #[trigger] numbered(base, n))
}

/// Whether a user name is among those taken.
pub fn contains_name(taken: &Vec<String>, name: &str) -> (found: bool)
    ensures
        found == is_taken(texts_of(taken@), name@),
{
    let mut i: usize = 0;
    while i < taken.len()
        invariant
            i <= taken.len(),
            forall|j: int| 0 <= j < i ==> #[trigger] texts_of(taken@)[j] != name@,
        decreases taken.len() - i,
    {
        assert(texts_of(taken@)[i as int] == taken@[i as int]@);
        if str_eq(taken[i].as_str(), name) {
            return true;
        }
        i += 1;
    }
    false
}

/// Finds a user name for a new user. `taken` holds the user names on record
/// that begin like the one tried first.
///
/// Where none is taken, the name tried first is the one. Otherwise it is that
/// name with the first number from 1 to 99 behind it that makes a name not
/// taken, and the search fails where there is no such number.
pub fn generate_unique_username(taken: &Vec<String>, first_name: &str, last_name: &str) -> (outcome:
    Result<String, Error>)
    ensures
        ({
            let base = base_name(first_name@, last_name@);
            let names = texts_of(taken@);
            if names.len() == 0 {
                outcome matches Ok(name) && name@ == base
            } else {
                match outcome {
                    Ok(name) => exists|number: int|
                        is_first_free(names, base, number) && name@ == #[trigger] numbered(
                            base,
                            number,
                        ),
                    Err(error) => {
                        &&& error == Error::Validation(Invalid::NoFreeUsername)
                        &&& forall|n: int| 1 <= n < 100 ==> is_taken(names, #[trigger] numbered(base, n))
                    },
                }
            }
        }),
{
    let base = base_username(first_name, last_name);
    if taken.len() == 0 {
        return Ok(base);
    }
    let mut number: i64 = 1;
    while number < 100
        invariant
            1 <= number <= 100,
            taken@.len() > 0,
            base@ == base_name(first_name@, last_name@),
            forall|n: int|
                1 <= n < number ==> is_taken(texts_of(taken@), #[trigger] numbered(base@, n)),
        decreases 100 - number,
    {
        let text = number_text(number);
        let candidate = join_texts(base.as_str(), text.as_str());
        if !contains_name(taken, candidate.as_str()) {
            assert(candidate@ == numbered(base@, number as int));
            assert(is_first_free(texts_of(taken@), base@, number as int));
            assert(texts_of(taken@).len() == taken@.len());
            return Ok(candidate);
        }
        number += 1;
    }
    Err(Error::Validation(Invalid::NoFreeUsername))
}

/// What is decided of a new user besides what the request says.
#[derive(Clone, Debug, PartialEq, Eq)]
pub struct NewUser {
    pub user_id: String,
    pub auth_id: String,
    pub username: String,
    /// The bcrypt hash of the password.
    pub password_hash: String,
}

/// Why a new user is turned down once the user name is known: the password
/// is empty, or the user name is taken.
pub open spec fn account_refusal(password: Seq<char>, username_taken: bool) -> Option<Error> {
    if trimmed(password).len() == 0 {
        Some(Error::Validation(Invalid::PasswordMissing))
    } else if username_taken {
        Some(Error::Validation(Invalid::UsernameTaken))
    } else {
        None
    }
}

/// Creates the account of a new user under the user name given, which the
/// caller has looked up: `username_taken` says whether it is on record
/// already. Where bcrypt cannot make a hash, the store counts as failed.
pub fn create_user(input: &CreateUserInput, username: String, username_taken: bool) -> (outcome: Result<
    NewUser,
    Error,
>)
    ensures
        match account_refusal(input.password@, username_taken) {
            Some(error) => outcome == Err::<NewUser, Error>(error),
            None => match outcome {
                Ok(user) => {
                    &&& user.username == username
                    &&& bcrypt_accepts(trimmed(input.password@), user.password_hash@) == Some(true)
                    &&& is_uuid_text(user.user_id@)
                    &&& is_uuid_text(user.auth_id@)
                },
                Err(error) => error == Error::Store,
            },
        },
{
    let password = trim_text(input.password.as_str());
    if password.as_str().unicode_len() == 0 {
        return Err(Error::Validation(Invalid::PasswordMissing));
    }
    if username_taken {
        return Err(Error::Validation(Invalid::UsernameTaken));
    }
    match hash_password(password.as_str()) {
        Some(password_hash) => Ok(
            NewUser { user_id: fresh_id(), auth_id: fresh_id(), username, password_hash },
        ),
        None => Err(Error::Store),
    }
}

} // verus!
