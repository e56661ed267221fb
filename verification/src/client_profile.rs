//! The identity that a client presents when it connects.
//!
//! A profile starts as one of the core's presets, which own the defaults of
//! each platform, and a few overrides are put on top of it.

use vstd::prelude::*;

use crate::messages::fields::opt_view;

verus! {

/// Optional overrides applied on top of every preset. What is absent keeps the
/// preset's value.
#[derive(Debug, Clone, PartialEq, Eq)]
pub struct ClientProfileOverrides {
    /// The phone's identifier.
    pub phone_id: Option<String>,
    /// The language.
    pub locale_language: Option<String>,
    /// The country.
    pub locale_country: Option<String>,
    /// Whether queued messages are held back.
    pub passive_login: Option<bool>,
}

impl Default for ClientProfileOverrides {
    fn default() -> (o: Self)
        ensures
            o.phone_id is None,
            o.locale_language is None,
            o.locale_country is None,
            o.passive_login is None,
    {
        ClientProfileOverrides {
            phone_id: None,
            locale_language: None,
            locale_country: None,
            passive_login: None,
        }
    }
}

/// Selects the preset, and what is put on top of it.
#[derive(Debug, Clone, PartialEq, Eq)]
pub enum ClientProfileInput {
    /// The web client.
    Web {
        /// What is put on top.
        overrides: ClientProfileOverrides,
    },
    /// The Android client.
    Android {
        /// The system's version.
        os_version: String,
        /// What is put on top.
        overrides: ClientProfileOverrides,
    },
    /// The Android client for businesses.
    SmbAndroid {
        /// The system's version.
        os_version: String,
        /// What is put on top.
        overrides: ClientProfileOverrides,
    },
    /// The iPhone client.
    Ios {
        /// The system's version.
        os_version: String,
        /// What is put on top.
        overrides: ClientProfileOverrides,
    },
    /// The Mac client.
    Macos {
        /// The system's version.
        os_version: String,
        /// What is put on top.
        overrides: ClientProfileOverrides,
    },
    /// The Windows client.
    Windows {
        /// The system's version.
        os_version: String,
        /// What is put on top.
        overrides: ClientProfileOverrides,
    },
}

/// A profile.
#[derive(Debug, Clone, PartialEq, Eq)]
pub struct ClientProfile {
    /// The platform's number.
    pub user_agent_platform: i32,
    /// The device's name.
    pub device: String,
    /// The system's version.
    pub os_version: String,
    /// The device's maker.
    pub manufacturer: String,
    /// Whether web details are sent along.
    pub include_web_info: bool,
    /// Whether queued messages are held back.
    pub passive_login: bool,
    /// The phone's identifier; a fresh one for each connection when absent.
    pub phone_id: Option<String>,
    /// The language.
    pub locale_language: String,
    /// The country.
    pub locale_country: String,
}

/// The values that a [`ClientProfile`] carries.
#[verifier::ext_equal]
pub struct ClientProfileView {
    pub user_agent_platform: i32,
    pub device: Seq<char>,
    pub os_version: Seq<char>,
    pub manufacturer: Seq<char>,
    pub include_web_info: bool,
    pub passive_login: bool,
    pub phone_id: Option<Seq<char>>,
    pub locale_language: Seq<char>,
    pub locale_country: Seq<char>,
}

impl View for ClientProfile {
    type V = ClientProfileView;

    open spec fn view(&self) -> ClientProfileView {
        ClientProfileView {
            user_agent_platform: self.user_agent_platform,
            device: self.device@,
            os_version: self.os_version@,
            manufacturer: self.manufacturer@,
            include_web_info: self.include_web_info,
            passive_login: self.passive_login,
            phone_id: opt_view(self.phone_id),
            locale_language: self.locale_language@,
            locale_country: self.locale_country@,
        }
    }
}

/// A preset: a platform, a device and its maker. Only the web client sends web
/// details; none is passive, none fixes the phone, and each speaks English in
/// the United States.
pub open spec fn preset(
    platform: i32,
    device: Seq<char>,
    manufacturer: Seq<char>,
    web: bool,
    os_version: Seq<char>,
) -> ClientProfileView {
    ClientProfileView {
        user_agent_platform: platform,
        device,
        os_version,
        manufacturer,
        include_web_info: web,
        passive_login: false,
        phone_id: None,
        locale_language: "en"@,
        locale_country: "US"@,
    }
}

/// The web preset.
pub open spec fn web_preset() -> ClientProfileView {
    preset(14, "Desktop"@, ""@, true, "0.1.0"@)
}

/// The Android preset.
pub open spec fn android_preset(os_version: Seq<char>) -> ClientProfileView {
    preset(0, "Smartphone"@, ""@, false, os_version)
}

/// The preset of Android for businesses.
pub open spec fn smb_android_preset(os_version: Seq<char>) -> ClientProfileView {
    preset(10, "Smartphone"@, ""@, false, os_version)
}

/// The iPhone preset.
pub open spec fn ios_preset(os_version: Seq<char>) -> ClientProfileView {
    preset(1, "iPhone"@, "Apple"@, false, os_version)
}

/// The Mac preset.
pub open spec fn macos_preset(os_version: Seq<char>) -> ClientProfileView {
    preset(24, "Desktop"@, "Apple"@, false, os_version)
}

/// The Windows preset.
pub open spec fn windows_preset(os_version: Seq<char>) -> ClientProfileView {
    preset(13, "Desktop"@, ""@, false, os_version)
}

/// [`wacore::client_profile::ClientProfile::web`], field by field.
#[verifier::external_body]
fn core_web() -> (p: ClientProfile)
    ensures
        p@ == web_preset(),
{
    let p = wacore::client_profile::ClientProfile::web();
    ClientProfile {
        user_agent_platform: p.user_agent_platform as i32,
        device: p.device,
        os_version: p.os_version,
        manufacturer: p.manufacturer,
        include_web_info: p.include_web_info,
        passive_login: p.passive_login,
        phone_id: p.phone_id,
        locale_language: p.locale_language,
        locale_country: p.locale_country,
    }
}

/// [`wacore::client_profile::ClientProfile::android`], field by field.
#[verifier::external_body]
fn core_android(os_version: String) -> (p: ClientProfile)
    ensures
        p@ == android_preset(os_version@),
{
    let p = wacore::client_profile::ClientProfile::android(os_version);
    ClientProfile {
        user_agent_platform: p.user_agent_platform as i32,
        device: p.device,
        os_version: p.os_version,
        manufacturer: p.manufacturer,
        include_web_info: p.include_web_info,
        passive_login: p.passive_login,
        phone_id: p.phone_id,
        locale_language: p.locale_language,
        locale_country: p.locale_country,
    }
}

/// [`wacore::client_profile::ClientProfile::smb_android`], field by field.
#[verifier::external_body]
fn core_smb_android(os_version: String) -> (p: ClientProfile)
    ensures
        p@ == smb_android_preset(os_version@),
{
    let p = wacore::client_profile::ClientProfile::smb_android(os_version);
    ClientProfile {
        user_agent_platform: p.user_agent_platform as i32,
        device: p.device,
        os_version: p.os_version,
        manufacturer: p.manufacturer,
        include_web_info: p.include_web_info,
        passive_login: p.passive_login,
        phone_id: p.phone_id,
        locale_language: p.locale_language,
        locale_country: p.locale_country,
    }
}

/// [`wacore::client_profile::ClientProfile::ios`], field by field.
#[verifier::external_body]
fn core_ios(os_version: String) -> (p: ClientProfile)
    ensures
        p@ == ios_preset(os_version@),
{
    let p = wacore::client_profile::ClientProfile::ios(os_version);
    ClientProfile {
        user_agent_platform: p.user_agent_platform as i32,
        device: p.device,
        os_version: p.os_version,
        manufacturer: p.manufacturer,
        include_web_info: p.include_web_info,
        passive_login: p.passive_login,
        phone_id: p.phone_id,
        locale_language: p.locale_language,
        locale_country: p.locale_country,
    }
}

/// [`wacore::client_profile::ClientProfile::macos`], field by field.
#[verifier::external_body]
fn core_macos(os_version: String) -> (p: ClientProfile)
    ensures
        p@ == macos_preset(os_version@),
{
    let p = wacore::client_profile::ClientProfile::macos(os_version);
    ClientProfile {
        user_agent_platform: p.user_agent_platform as i32,
        device: p.device,
        os_version: p.os_version,
        manufacturer: p.manufacturer,
        include_web_info: p.include_web_info,
        passive_login: p.passive_login,
        phone_id: p.phone_id,
        locale_language: p.locale_language,
        locale_country: p.locale_country,
    }
}

/// [`wacore::client_profile::ClientProfile::windows`], field by field.
#[verifier::external_body]
fn core_windows(os_version: String) -> (p: ClientProfile)
    ensures
        p@ == windows_preset(os_version@),
{
    let p = wacore::client_profile::ClientProfile::windows(os_version);
    ClientProfile {
        user_agent_platform: p.user_agent_platform as i32,
        device: p.device,
        os_version: p.os_version,
        manufacturer: p.manufacturer,
        include_web_info: p.include_web_info,
        passive_login: p.passive_login,
        phone_id: p.phone_id,
        locale_language: p.locale_language,
        locale_country: p.locale_country,
    }
}

impl ClientProfileOverrides {
    /// A profile with the overrides on top.
    pub open spec fn over(self, profile: ClientProfileView) -> ClientProfileView {
        ClientProfileView {
            phone_id: match self.phone_id {
                Some(id) => Some(id@),
                None => profile.phone_id,
            },
            locale_language: match self.locale_language {
                Some(language) => language@,
                None => profile.locale_language,
            },
            locale_country: match self.locale_country {
                Some(country) => country@,
                None => profile.locale_country,
            },
            passive_login: match self.passive_login {
                Some(passive) => passive,
                None => profile.passive_login,
            },
            ..profile
        }
    }

    /// Puts the overrides on top of a profile.
    pub fn apply(self, profile: ClientProfile) -> (p: ClientProfile)
        ensures
            p@ == self.over(profile@),
            p.user_agent_platform == profile.user_agent_platform,
            p.device@ == profile.device@,
            p.os_version@ == profile.os_version@,
            p.manufacturer@ == profile.manufacturer@,
            p.include_web_info == profile.include_web_info,
            self.phone_id matches Some(id) ==> (p.phone_id matches Some(q) && q@ == id@),
            self.locale_language matches Some(language) ==> p.locale_language@ == language@,
            self.locale_country matches Some(country) ==> p.locale_country@ == country@,
            self.passive_login matches Some(passive) ==> p.passive_login == passive,
    {
        let mut profile = profile;
        if self.phone_id.is_some() {
            profile.phone_id = self.phone_id;
        }
        if let Some(language) = self.locale_language {
            profile.locale_language = language;
        }
        if let Some(country) = self.locale_country {
            profile.locale_country = country;
        }
        if let Some(passive) = self.passive_login {
            profile.passive_login = passive;
        }
        profile
    }
}

impl ClientProfileInput {
    /// The profile that is meant.
    pub open spec fn meant(self) -> ClientProfileView {
        match self {
            ClientProfileInput::Web { overrides } => overrides.over(web_preset()),
            ClientProfileInput::Android { os_version, overrides } => overrides.over(
                android_preset(os_version@),
            ),
            ClientProfileInput::SmbAndroid { os_version, overrides } => overrides.over(
                smb_android_preset(os_version@),
            ),
            ClientProfileInput::Ios { os_version, overrides } => overrides.over(
                ios_preset(os_version@),
            ),
            ClientProfileInput::Macos { os_version, overrides } => overrides.over(
                macos_preset(os_version@),
            ),
            ClientProfileInput::Windows { os_version, overrides } => overrides.over(
                windows_preset(os_version@),
            ),
        }
    }

    /// Builds the profile.
    pub fn into_profile(self) -> (p: ClientProfile)
        ensures
            p@ == self.meant(),
    {
        match self {
            ClientProfileInput::Web { overrides } => overrides.apply(core_web()),
            ClientProfileInput::Android { os_version, overrides } => overrides.apply(
                core_android(os_version),
            ),
            ClientProfileInput::SmbAndroid { os_version, overrides } => overrides.apply(
                core_smb_android(os_version),
            ),
            ClientProfileInput::Ios { os_version, overrides } => overrides.apply(
                core_ios(os_version),
            ),
            ClientProfileInput::Macos { os_version, overrides } => overrides.apply(
                core_macos(os_version),
            ),
            ClientProfileInput::Windows { os_version, overrides } => overrides.apply(
                core_windows(os_version),
            ),
        }
    }
}

/// Without overrides a profile is its preset.
pub proof fn no_overrides_keep_the_preset(overrides: ClientProfileOverrides, p: ClientProfileView)
    requires
        overrides.phone_id is None,
        overrides.locale_language is None,
        overrides.locale_country is None,
        overrides.passive_login is None,
    ensures
        overrides.over(p) == p,
{
}

} // verus!
