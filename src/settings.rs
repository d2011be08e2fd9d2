use vstd::prelude::*;

use crate::error::{UserError, ValidationIssue};

verus! {

/// The key under which the appearance settings are kept.
pub const APPEARANCE_SETTING_CACHE_KEY: &'static str = "appearance_settings";

/// The theme an empty theme name stands for.
pub const APPEARANCE_DEFAULT_THEME: &'static str = "Default";

pub const APPEARANCE_DEFAULT_FONT: &'static str = "Poppins";

pub const APPEARANCE_DEFAULT_LOCALE: &'static str = "en-US";

/// What reading one settings blob out of the store gave.
pub enum StoredSetting<T> {
    /// Nothing is stored under the key.
    Absent,
    /// Something is stored, but it does not decode.
    Malformed,
    /// A decoded value.
    Present(T),
}

#[derive(Clone, Copy, Debug, PartialEq, Eq, Structural)]
pub enum ThemeMode {
    Light,
    Dark,
    System,
}

/// The persisted appearance of the application.
#[derive(Clone, Debug, PartialEq, Eq)]
pub struct AppearanceSettings {
    pub theme: String,
    pub theme_mode: ThemeMode,
    pub font: String,
    pub locale: String,
    pub reset_to_default: bool,
}

/// The appearance settings as plain values.
pub struct AppearanceView {
    pub theme: Seq<char>,
    pub theme_mode: ThemeMode,
    pub font: Seq<char>,
    pub locale: Seq<char>,
    pub reset_to_default: bool,
}

impl View for AppearanceSettings {
    type V = AppearanceView;

    open spec fn view(&self) -> AppearanceView {
        AppearanceView {
            theme: self.theme@,
            theme_mode: self.theme_mode,
            font: self.font@,
            locale: self.locale@,
            reset_to_default: self.reset_to_default,
        }
    }
}

pub open spec fn default_theme() -> Seq<char> {
    seq!['D', 'e', 'f', 'a', 'u', 'l', 't']
}

pub open spec fn default_appearance() -> AppearanceView {
    AppearanceView {
        theme: default_theme(),
        theme_mode: ThemeMode::Light,
        font: seq!['P', 'o', 'p', 'p', 'i', 'n', 's'],
        locale: seq!['e', 'n', '-', 'U', 'S'],
        reset_to_default: true,
    }
}

/// The settings as they are written: an empty theme becomes the default theme.
pub open spec fn normalized_appearance(s: AppearanceView) -> AppearanceView {
    if s.theme.len() == 0 {
        AppearanceView { theme: default_theme(), ..s }
    } else {
        s
    }
}

/// The settings a read yields: a decoded value as it is, otherwise the defaults.
pub open spec fn appearance_read(stored: StoredSetting<AppearanceView>) -> AppearanceView {
    match stored {
        StoredSetting::Present(s) => s,
        _ => default_appearance(),
    }
}

pub open spec fn stored_view(stored: StoredSetting<AppearanceSettings>) -> StoredSetting<
    AppearanceView,
> {
    match stored {
        StoredSetting::Absent => StoredSetting::Absent,
        StoredSetting::Malformed => StoredSetting::Malformed,
        StoredSetting::Present(s) => StoredSetting::Present(s@),
    }
}

impl Default for AppearanceSettings {
    fn default() -> (r: AppearanceSettings)
        ensures
            r@ == default_appearance(),
    {
        proof {
            reveal_strlit("Default");
            reveal_strlit("Poppins");
            reveal_strlit("en-US");
        }
        let r = AppearanceSettings {
            theme: String::from_str(APPEARANCE_DEFAULT_THEME),
            theme_mode: ThemeMode::Light,
            font: String::from_str(APPEARANCE_DEFAULT_FONT),
            locale: String::from_str(APPEARANCE_DEFAULT_LOCALE),
            reset_to_default: true,
        };
        assert(r@.theme =~= default_appearance().theme);
        assert(r@.font =~= default_appearance().font);
        assert(r@.locale =~= default_appearance().locale);
        r
    }
}

/// Prepares appearance settings for storage under
/// `APPEARANCE_SETTING_CACHE_KEY`: an empty theme is replaced by the default
/// theme, everything else is kept.
pub fn set_appearance_setting(setting: AppearanceSettings) -> (r: AppearanceSettings)
    ensures
        r@ == normalized_appearance(setting@),
{
    let mut setting = setting;
    if setting.theme.as_str().unicode_len() == 0 {
        proof {
            reveal_strlit("Default");
        }
        setting.theme = String::from_str(APPEARANCE_DEFAULT_THEME);
        assert(setting.theme@ =~= default_theme());
    }
    setting
}

/// The appearance settings to hand out, given what was read under
/// `APPEARANCE_SETTING_CACHE_KEY`. Never fails: nothing stored, or a blob that
/// does not decode, gives the defaults.
pub fn get_appearance_setting(stored: StoredSetting<AppearanceSettings>) -> (r: AppearanceSettings)
    ensures
        r@ == appearance_read(stored_view(stored)),
{
    match stored {
        StoredSetting::Present(s) => s,
        _ => AppearanceSettings::default(),
    }
}

/// With nothing stored, a read gives the default settings. Settings written
/// with an empty theme read back with the default theme, never an empty one;
/// any other theme reads back as written; and preparing settings for storage
/// a second time changes nothing.
pub proof fn appearance_defaults_and_round_trip(s: AppearanceView)
    ensures
        appearance_read(StoredSetting::Absent) == default_appearance(),
        appearance_read(StoredSetting::Present(normalized_appearance(s))).theme == if s.theme.len()
            == 0 {
            default_theme()
        } else {
            s.theme
        },
        appearance_read(StoredSetting::Present(normalized_appearance(s))).theme.len() > 0,
        normalized_appearance(normalized_appearance(s)) == normalized_appearance(s),
{
}

/// A blob under the appearance key that does not decode reads as the
/// default settings, not as an error.
pub proof fn malformed_appearance_reads_as_default()
    ensures
        appearance_read(StoredSetting::Malformed) == default_appearance(),
{
}

/// The connection parameters of a third-party backend, as they arrive.
pub struct ProviderConfigPayload {
    pub url: String,
    pub key: String,
    pub jwt_secret: String,
}

/// The connection parameters of a third-party backend.
#[derive(Clone, Debug, PartialEq, Eq)]
pub struct ProviderConfiguration {
    pub url: String,
    pub key: String,
    pub jwt_secret: String,
}

/// The provider configuration as plain values.
pub struct ProviderConfigView {
    pub url: Seq<char>,
    pub key: Seq<char>,
    pub jwt_secret: Seq<char>,
}

impl View for ProviderConfiguration {
    type V = ProviderConfigView;

    open spec fn view(&self) -> ProviderConfigView {
        ProviderConfigView { url: self.url@, key: self.key@, jwt_secret: self.jwt_secret@ }
    }
}

/// With no configuration stored, every parameter is empty.
pub open spec fn default_provider_config() -> ProviderConfigView {
    ProviderConfigView { url: Seq::empty(), key: Seq::empty(), jwt_secret: Seq::empty() }
}

impl Default for ProviderConfiguration {
    fn default() -> (r: ProviderConfiguration)
        ensures
            r@ == default_provider_config(),
    {
        ProviderConfiguration { url: String::new(), key: String::new(), jwt_secret: String::new() }
    }
}

/// What converting a configuration payload gives: every parameter must be
/// present, checked in the order url, key, secret.
pub open spec fn provider_config_of(p: ProviderConfigPayload) -> Result<
    ProviderConfiguration,
    UserError,
> {
    if p.url@.len() == 0 {
        Err(UserError::Validation(ValidationIssue::ConfigUrlEmpty))
    } else if p.key@.len() == 0 {
        Err(UserError::Validation(ValidationIssue::ConfigKeyEmpty))
    } else if p.jwt_secret@.len() == 0 {
        Err(UserError::Validation(ValidationIssue::ConfigSecretEmpty))
    } else {
        Ok(ProviderConfiguration { url: p.url, key: p.key, jwt_secret: p.jwt_secret })
    }
}

/// Converts a configuration payload, or says why it cannot be used.
pub fn validate_provider_config(p: ProviderConfigPayload) -> (r: Result<
    ProviderConfiguration,
    UserError,
>)
    ensures
        r == provider_config_of(p),
{
    if p.url.as_str().unicode_len() == 0 {
        Err(UserError::Validation(ValidationIssue::ConfigUrlEmpty))
    } else if p.key.as_str().unicode_len() == 0 {
        Err(UserError::Validation(ValidationIssue::ConfigKeyEmpty))
    } else if p.jwt_secret.as_str().unicode_len() == 0 {
        Err(UserError::Validation(ValidationIssue::ConfigSecretEmpty))
    } else {
        Ok(ProviderConfiguration { url: p.url, key: p.key, jwt_secret: p.jwt_secret })
    }
}

/// The provider configuration to hand out, given what the store holds.
/// Never fails: nothing stored, or a blob that does not decode, gives the
/// default configuration.
pub fn get_supabase_config_handler(stored: StoredSetting<ProviderConfiguration>) -> (r:
    ProviderConfiguration)
    ensures
        stored is Present ==> r == stored->Present_0,
        !(stored is Present) ==> r@ == default_provider_config(),
{
    match stored {
        StoredSetting::Present(c) => c,
        _ => ProviderConfiguration::default(),
    }
}

} // verus!
