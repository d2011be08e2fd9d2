use vstd::prelude::*;

use crate::auth::{auth_type_of, decode_auth_type, AuthType, RawAuthType};
use crate::error::{UserError, ValidationIssue};

verus! {

/// How many times `c` occurs in `s`.
pub open spec fn occurrences(s: Seq<char>, c: char) -> nat
    decreases s.len(),
{
    if s.len() == 0 {
        0
    } else {
        occurrences(s.drop_last(), c) + if s.last() == c {
            1nat
        } else {
            0nat
        }
    }
}

/// An address is well formed when it holds exactly one `@`, with text on
/// both sides of it, and no space.
pub open spec fn is_well_formed_email(s: Seq<char>) -> bool {
    &&& s.len() >= 3
    &&& occurrences(s, '@') == 1
    &&& s[0] != '@'
    &&& s.last() != '@'
    &&& occurrences(s, ' ') == 0
}

/// The verdict on an email address: `None` when it is acceptable.
pub open spec fn email_issue(s: Seq<char>) -> Option<ValidationIssue> {
    if s.len() == 0 {
        Some(ValidationIssue::EmailEmpty)
    } else if !is_well_formed_email(s) {
        Some(ValidationIssue::EmailInvalid)
    } else {
        None
    }
}

/// Checks an email address.
pub fn check_email(email: &String) -> (r: Option<ValidationIssue>)
    ensures
        r == email_issue(email@),
{
    let s = email.as_str();
    let n = s.unicode_len();
    if n == 0 {
        return Some(ValidationIssue::EmailEmpty);
    }
    let mut ats: usize = 0;
    let mut spaces: usize = 0;
    let mut i: usize = 0;
    while i < n
        invariant
            n == email@.len(),
            s@ == email@,
            i <= n,
            ats as nat == occurrences(email@.subrange(0, i as int), '@'),
            spaces as nat == occurrences(email@.subrange(0, i as int), ' '),
            ats <= i,
            spaces <= i,
        decreases n - i,
    {
        let c = s.get_char(i);
        assert(email@.subrange(0, i + 1).drop_last() == email@.subrange(0, i as int));
        if c == '@' {
            ats = ats + 1;
        }
        if c == ' ' {
            spaces = spaces + 1;
        }
        i = i + 1;
    }
    assert(email@.subrange(0, n as int) == email@);
    if n < 3 || ats != 1 || spaces != 0 || s.get_char(0) == '@' || s.get_char(n - 1) == '@' {
        Some(ValidationIssue::EmailInvalid)
    } else {
        None
    }
}

/// Checks that a text field holds something.
fn is_blank(s: &String) -> (r: bool)
    ensures
        r == (s@.len() == 0),
{
    s.as_str().unicode_len() == 0
}

/// A sign-in request as it arrives.
pub struct SignInPayload {
    pub email: String,
    pub password: String,
    pub name: String,
    pub auth_type: RawAuthType,
}

/// A sign-in request that passed validation.
#[derive(Clone, Debug, PartialEq, Eq)]
pub struct SignInParams {
    pub email: String,
    pub password: String,
    pub name: String,
    pub auth_type: AuthType,
}

/// A sign-up request as it arrives.
pub struct SignUpPayload {
    pub email: String,
    pub name: String,
    pub password: String,
    pub auth_type: RawAuthType,
}

/// A sign-up request that passed validation.
#[derive(Clone, Debug, PartialEq, Eq)]
pub struct SignUpParams {
    pub email: String,
    pub name: String,
    pub password: String,
    pub auth_type: AuthType,
}

/// A profile update as it arrives: each field left `None` is kept as it is.
pub struct UpdateUserProfilePayload {
    pub id: i64,
    pub name: Option<String>,
    pub email: Option<String>,
    pub password: Option<String>,
}

/// A profile update that passed validation.
#[derive(Clone, Debug, PartialEq, Eq)]
pub struct UpdateUserProfileParams {
    pub id: i64,
    pub name: Option<String>,
    pub email: Option<String>,
    pub password: Option<String>,
}

/// What validating a sign-in payload gives: the first issue found, in the
/// order email, password, auth type, or the typed record.
pub open spec fn sign_in_params_of(p: SignInPayload) -> Result<SignInParams, UserError> {
    if email_issue(p.email@) is Some {
        Err(UserError::Validation(email_issue(p.email@)->0))
    } else if p.password@.len() == 0 {
        Err(UserError::Validation(ValidationIssue::PasswordEmpty))
    } else if auth_type_of(p.auth_type) is None {
        Err(UserError::Validation(ValidationIssue::UnknownAuthType))
    } else {
        Ok(
            SignInParams {
                email: p.email,
                password: p.password,
                name: p.name,
                auth_type: auth_type_of(p.auth_type)->0,
            },
        )
    }
}

/// What validating a sign-up payload gives: the first issue found, in the
/// order email, name, password, auth type, or the typed record.
pub open spec fn sign_up_params_of(p: SignUpPayload) -> Result<SignUpParams, UserError> {
    if email_issue(p.email@) is Some {
        Err(UserError::Validation(email_issue(p.email@)->0))
    } else if p.name@.len() == 0 {
        Err(UserError::Validation(ValidationIssue::NameEmpty))
    } else if p.password@.len() == 0 {
        Err(UserError::Validation(ValidationIssue::PasswordEmpty))
    } else if auth_type_of(p.auth_type) is None {
        Err(UserError::Validation(ValidationIssue::UnknownAuthType))
    } else {
        Ok(
            SignUpParams {
                email: p.email,
                name: p.name,
                password: p.password,
                auth_type: auth_type_of(p.auth_type)->0,
            },
        )
    }
}

/// What validating a profile update gives: every field that is present must
/// be acceptable, checked in the order name, email, password.
pub open spec fn update_params_of(p: UpdateUserProfilePayload) -> Result<
    UpdateUserProfileParams,
    UserError,
> {
    if p.name is Some && p.name->0@.len() == 0 {
        Err(UserError::Validation(ValidationIssue::NameEmpty))
    } else if p.email is Some && email_issue(p.email->0@) is Some {
        Err(UserError::Validation(email_issue(p.email->0@)->0))
    } else if p.password is Some && p.password->0@.len() == 0 {
        Err(UserError::Validation(ValidationIssue::PasswordEmpty))
    } else {
        Ok(UpdateUserProfileParams { id: p.id, name: p.name, email: p.email, password: p.password })
    }
}

/// Turns a sign-in payload into its typed record, or says why it cannot be one.
pub fn validate_sign_in(p: SignInPayload) -> (r: Result<SignInParams, UserError>)
    ensures
        r == sign_in_params_of(p),
{
    if let Some(issue) = check_email(&p.email) {
        return Err(UserError::Validation(issue));
    }
    if is_blank(&p.password) {
        return Err(UserError::Validation(ValidationIssue::PasswordEmpty));
    }
    match decode_auth_type(p.auth_type) {
        None => Err(UserError::Validation(ValidationIssue::UnknownAuthType)),
        Some(auth_type) => Ok(
            SignInParams { email: p.email, password: p.password, name: p.name, auth_type },
        ),
    }
}

/// Turns a sign-up payload into its typed record, or says why it cannot be one.
pub fn validate_sign_up(p: SignUpPayload) -> (r: Result<SignUpParams, UserError>)
    ensures
        r == sign_up_params_of(p),
{
    if let Some(issue) = check_email(&p.email) {
        return Err(UserError::Validation(issue));
    }
    if is_blank(&p.name) {
        return Err(UserError::Validation(ValidationIssue::NameEmpty));
    }
    if is_blank(&p.password) {
        return Err(UserError::Validation(ValidationIssue::PasswordEmpty));
    }
    match decode_auth_type(p.auth_type) {
        None => Err(UserError::Validation(ValidationIssue::UnknownAuthType)),
        Some(auth_type) => Ok(
            SignUpParams { email: p.email, name: p.name, password: p.password, auth_type },
        ),
    }
}

/// Turns a profile update into its typed record, or says why it cannot be one.
pub fn validate_update_profile(p: UpdateUserProfilePayload) -> (r: Result<
    UpdateUserProfileParams,
    UserError,
>)
    ensures
        r == update_params_of(p),
{
    if let Some(name) = &p.name {
        if is_blank(name) {
            return Err(UserError::Validation(ValidationIssue::NameEmpty));
        }
    }
    if let Some(email) = &p.email {
        if let Some(issue) = check_email(email) {
            return Err(UserError::Validation(issue));
        }
    }
    if let Some(password) = &p.password {
        if is_blank(password) {
            return Err(UserError::Validation(ValidationIssue::PasswordEmpty));
        }
    }
    Ok(UpdateUserProfileParams { id: p.id, name: p.name, email: p.email, password: p.password })
}

} // verus!
