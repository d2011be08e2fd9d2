use vstd::prelude::*;

use std::collections::HashMap;

use crate::auth::AuthType;
use crate::error::UserError;
use crate::params::{SignInParams, SignUpParams, UpdateUserProfileParams};
use crate::settings::ProviderConfiguration;

verus! {

/// The record of a signed-in user, as the session manager keeps it.
#[derive(Clone, Debug, PartialEq, Eq)]
pub struct UserProfile {
    pub id: i64,
    pub email: String,
    pub name: String,
    pub token: String,
    pub auth_type: AuthType,
}

/// The active session: who is signed in.
#[derive(Clone, Copy, Debug, PartialEq, Eq, Structural)]
pub struct SessionHandle {
    pub user_id: i64,
}

/// Where the signed-in user's data lives.
#[derive(Clone, Debug, PartialEq, Eq)]
pub struct UserSetting {
    pub user_folder: String,
}

/// One call into the session manager. Every call that depends on an auth
/// type carries it, so that no request relies on a value another one set.
#[derive(Clone, Debug, PartialEq, Eq)]
pub enum SessionCall {
    UpdateActiveAuthType(AuthType),
    SignIn { params: SignInParams, auth_type: AuthType },
    SignUp { auth_type: AuthType, params: SignUpParams },
    /// Sign-up through a federated provider, with the provider's map as it came.
    ThirdPartySignUp { auth_type: AuthType, map: HashMap<String, String> },
    InitUser,
    CheckUser,
    CurrentSession,
    GetUserProfile { user_id: i64, refresh: bool },
    SignOut,
    UpdateUserProfile(UpdateUserProfileParams),
    CurrentUserSetting,
    SaveProviderConfig(ProviderConfiguration),
}

/// What the session manager answered to a call.
#[derive(Clone, Debug, PartialEq, Eq)]
pub enum Reply {
    Done,
    Profile(UserProfile),
    Session(SessionHandle),
    /// `CurrentSession` found nobody signed in.
    NoSession,
    Setting(UserSetting),
    Failed(UserError),
}

} // verus!
