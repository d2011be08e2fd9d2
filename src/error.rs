use vstd::prelude::*;

verus! {

/// Why a request payload was refused before anything was done with it.
#[derive(Clone, Copy, Debug, PartialEq, Eq, Structural)]
pub enum ValidationIssue {
    EmailEmpty,
    EmailInvalid,
    PasswordEmpty,
    NameEmpty,
    UnknownAuthType,
    ConfigUrlEmpty,
    ConfigKeyEmpty,
    ConfigSecretEmpty,
}

/// Why an authentication attempt or a session lookup was turned down.
#[derive(Clone, Copy, Debug, PartialEq, Eq, Structural)]
pub enum AuthFailure {
    CredentialRejected,
    SessionInvalid,
    DuplicateAccount,
    ProviderRejected,
}

/// The failures a user operation can end in.
#[derive(Clone, Copy, Debug, PartialEq, Eq, Structural)]
pub enum UserError {
    /// The payload was malformed; nothing was sent to the session manager.
    Validation(ValidationIssue),
    /// The session manager refused the credentials or the session.
    Auth(AuthFailure),
    /// Persisting or reading user data failed.
    Storage,
    /// A profile was asked for while nobody is signed in.
    NoActiveSession,
    /// The session manager answered a call with a reply of the wrong shape.
    UnexpectedReply,
}

} // verus!
