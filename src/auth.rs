use vstd::prelude::*;

verus! {

/// Which credential-verification strategy the session manager uses.
#[derive(Clone, Copy, Debug, PartialEq, Eq, Structural)]
pub enum AuthType {
    Local,
    SelfHosted,
    /// A federated provider, by its identifier.
    ThirdParty(u32),
}

/// The auth-type tag as it arrives in a raw payload: a kind code and a
/// provider identifier that only the third-party kind may carry.
#[derive(Clone, Copy, Debug, PartialEq, Eq, Structural)]
pub struct RawAuthType {
    pub kind: u32,
    pub provider: u32,
}

pub const KIND_LOCAL: u32 = 0;

pub const KIND_SELF_HOSTED: u32 = 1;

pub const KIND_THIRD_PARTY: u32 = 2;

/// The auth type a raw tag denotes, if it denotes one. A local or
/// self-hosted tag that names a provider is ambiguous and denotes none.
pub open spec fn auth_type_of(raw: RawAuthType) -> Option<AuthType> {
    if raw.kind == KIND_LOCAL && raw.provider == 0 {
        Some(AuthType::Local)
    } else if raw.kind == KIND_SELF_HOSTED && raw.provider == 0 {
        Some(AuthType::SelfHosted)
    } else if raw.kind == KIND_THIRD_PARTY {
        Some(AuthType::ThirdParty(raw.provider))
    } else {
        None
    }
}

/// Reads the auth type out of a raw tag; `None` for a tag that is not recognised.
pub fn decode_auth_type(raw: RawAuthType) -> (r: Option<AuthType>)
    ensures
        r == auth_type_of(raw),
{
    if raw.kind == KIND_LOCAL && raw.provider == 0 {
        Some(AuthType::Local)
    } else if raw.kind == KIND_SELF_HOSTED && raw.provider == 0 {
        Some(AuthType::SelfHosted)
    } else if raw.kind == KIND_THIRD_PARTY {
        Some(AuthType::ThirdParty(raw.provider))
    } else {
        None
    }
}

} // verus!
