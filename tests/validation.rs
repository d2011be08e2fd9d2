use flowy_user::auth::{decode_auth_type, AuthType, RawAuthType};
use flowy_user::error::{UserError, ValidationIssue};
use flowy_user::params::{
    check_email, validate_sign_in, validate_sign_up, validate_update_profile, SignInPayload,
    SignUpPayload, UpdateUserProfilePayload,
};
use flowy_user::settings::{validate_provider_config, ProviderConfigPayload};

fn local() -> RawAuthType {
    RawAuthType { kind: 0, provider: 0 }
}

fn sign_in_payload(email: &str, password: &str, auth_type: RawAuthType) -> SignInPayload {
    SignInPayload {
        email: email.to_string(),
        password: password.to_string(),
        name: "nathan".to_string(),
        auth_type,
    }
}

#[test]
fn auth_type_tags_decode() {
    assert_eq!(decode_auth_type(RawAuthType { kind: 0, provider: 0 }), Some(AuthType::Local));
    assert_eq!(decode_auth_type(RawAuthType { kind: 1, provider: 0 }), Some(AuthType::SelfHosted));
    assert_eq!(
        decode_auth_type(RawAuthType { kind: 2, provider: 9 }),
        Some(AuthType::ThirdParty(9))
    );
    assert_eq!(decode_auth_type(RawAuthType { kind: 0, provider: 3 }), None);
    assert_eq!(decode_auth_type(RawAuthType { kind: 1, provider: 1 }), None);
    assert_eq!(decode_auth_type(RawAuthType { kind: 3, provider: 0 }), None);
}

#[test]
fn email_rules() {
    assert_eq!(check_email(&"a@b.io".to_string()), None);
    assert_eq!(check_email(&"".to_string()), Some(ValidationIssue::EmailEmpty));
    assert_eq!(check_email(&"ab.io".to_string()), Some(ValidationIssue::EmailInvalid));
    assert_eq!(check_email(&"a@@b.io".to_string()), Some(ValidationIssue::EmailInvalid));
    assert_eq!(check_email(&"@b.io".to_string()), Some(ValidationIssue::EmailInvalid));
    assert_eq!(check_email(&"ab.io@".to_string()), Some(ValidationIssue::EmailInvalid));
    assert_eq!(check_email(&"a b@c.io".to_string()), Some(ValidationIssue::EmailInvalid));
    assert_eq!(check_email(&"a@".to_string()), Some(ValidationIssue::EmailInvalid));
}

#[test]
fn sign_in_payload_becomes_params() {
    let params = validate_sign_in(sign_in_payload(
        "nathan@appflowy.io",
        "Abc@123",
        RawAuthType { kind: 2, provider: 5 },
    ))
    .unwrap();
    assert_eq!(params.email, "nathan@appflowy.io");
    assert_eq!(params.password, "Abc@123");
    assert_eq!(params.name, "nathan");
    assert_eq!(params.auth_type, AuthType::ThirdParty(5));
}

#[test]
fn sign_in_payload_errors() {
    let v = |i| Err(UserError::Validation(i));
    assert_eq!(validate_sign_in(sign_in_payload("", "pw", local())), v(ValidationIssue::EmailEmpty));
    assert_eq!(
        validate_sign_in(sign_in_payload("nobody", "pw", local())),
        v(ValidationIssue::EmailInvalid)
    );
    assert_eq!(
        validate_sign_in(sign_in_payload("a@b.io", "", local())),
        v(ValidationIssue::PasswordEmpty)
    );
    assert_eq!(
        validate_sign_in(sign_in_payload("a@b.io", "pw", RawAuthType { kind: 7, provider: 0 })),
        v(ValidationIssue::UnknownAuthType)
    );
}

#[test]
fn sign_up_payload_errors_and_success() {
    let mk = |email: &str, name: &str, password: &str| SignUpPayload {
        email: email.to_string(),
        name: name.to_string(),
        password: password.to_string(),
        auth_type: RawAuthType { kind: 1, provider: 0 },
    };
    let p = validate_sign_up(mk("a@b.io", "annie", "pw")).unwrap();
    assert_eq!(p.auth_type, AuthType::SelfHosted);
    assert_eq!(p.name, "annie");
    assert_eq!(
        validate_sign_up(mk("a@b.io", "", "pw")),
        Err(UserError::Validation(ValidationIssue::NameEmpty))
    );
    assert_eq!(
        validate_sign_up(mk("a@b.io", "annie", "")),
        Err(UserError::Validation(ValidationIssue::PasswordEmpty))
    );
    assert_eq!(
        validate_sign_up(mk("a.b.io", "annie", "pw")),
        Err(UserError::Validation(ValidationIssue::EmailInvalid))
    );
}

#[test]
fn update_payload_checks_only_present_fields() {
    let ok = validate_update_profile(UpdateUserProfilePayload {
        id: 3,
        name: None,
        email: Some("x@y.z".to_string()),
        password: None,
    })
    .unwrap();
    assert_eq!(ok.id, 3);
    assert_eq!(ok.email, Some("x@y.z".to_string()));
    assert_eq!(ok.name, None);
    let bad_name = UpdateUserProfilePayload { id: 3, name: Some(String::new()), email: None, password: None };
    assert_eq!(
        validate_update_profile(bad_name),
        Err(UserError::Validation(ValidationIssue::NameEmpty))
    );
    let bad_email =
        UpdateUserProfilePayload { id: 3, name: None, email: Some("xy".to_string()), password: None };
    assert_eq!(
        validate_update_profile(bad_email),
        Err(UserError::Validation(ValidationIssue::EmailInvalid))
    );
    let bad_password =
        UpdateUserProfilePayload { id: 3, name: None, email: None, password: Some(String::new()) };
    assert_eq!(
        validate_update_profile(bad_password),
        Err(UserError::Validation(ValidationIssue::PasswordEmpty))
    );
}

#[test]
fn provider_config_conversion() {
    let mk = |url: &str, key: &str, secret: &str| ProviderConfigPayload {
        url: url.to_string(),
        key: key.to_string(),
        jwt_secret: secret.to_string(),
    };
    let c = validate_provider_config(mk("https://x.supabase.co", "anon", "s3")).unwrap();
    assert_eq!(c.url, "https://x.supabase.co");
    assert_eq!(c.key, "anon");
    assert_eq!(c.jwt_secret, "s3");
    assert_eq!(
        validate_provider_config(mk("", "anon", "s3")),
        Err(UserError::Validation(ValidationIssue::ConfigUrlEmpty))
    );
    assert_eq!(
        validate_provider_config(mk("u", "", "s3")),
        Err(UserError::Validation(ValidationIssue::ConfigKeyEmpty))
    );
    assert_eq!(
        validate_provider_config(mk("u", "k", "")),
        Err(UserError::Validation(ValidationIssue::ConfigSecretEmpty))
    );
}
