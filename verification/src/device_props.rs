//! What a linked device says of itself.
//!
//! Every part is optional: what is absent keeps the value that the device has,
//! or, inside the history sync settings, the core's default.

use vstd::prelude::*;

use crate::messages::fields::opt_view;

verus! {

/// The kind of device that the phone shows.
#[derive(Debug, Clone, Copy, PartialEq, Eq, Structural)]
pub enum DevicePlatformType {
    /// `UNKNOWN`.
    Unknown,
    /// `CHROME`.
    Chrome,
    /// `FIREFOX`.
    Firefox,
    /// `IE`.
    Ie,
    /// `OPERA`.
    Opera,
    /// `SAFARI`.
    Safari,
    /// `EDGE`.
    Edge,
    /// `DESKTOP`.
    Desktop,
    /// `IPAD`.
    Ipad,
    /// `ANDROID_TABLET`.
    AndroidTablet,
    /// `OHANA`.
    Ohana,
    /// `ALOHA`.
    Aloha,
    /// `CATALINA`.
    Catalina,
    /// `TCL_TV`.
    TclTv,
    /// `IOS_PHONE`.
    IosPhone,
    /// `IOS_CATALYST`.
    IosCatalyst,
    /// `ANDROID_PHONE`.
    AndroidPhone,
    /// `ANDROID_AMBIGUOUS`.
    AndroidAmbiguous,
    /// `WEAR_OS`.
    WearOs,
    /// `AR_WRIST`.
    ArWrist,
    /// `AR_DEVICE`.
    ArDevice,
    /// `UWP`.
    Uwp,
    /// `VR`.
    Vr,
    /// `CLOUD_API`.
    CloudApi,
    /// `SMARTGLASSES`.
    Smartglasses,
}

impl DevicePlatformType {
    /// The name under which it crosses to the host.
    pub open spec fn wire_name(self) -> Seq<char> {
        match self {
            DevicePlatformType::Unknown => "UNKNOWN"@,
            DevicePlatformType::Chrome => "CHROME"@,
            DevicePlatformType::Firefox => "FIREFOX"@,
            DevicePlatformType::Ie => "IE"@,
            DevicePlatformType::Opera => "OPERA"@,
            DevicePlatformType::Safari => "SAFARI"@,
            DevicePlatformType::Edge => "EDGE"@,
            DevicePlatformType::Desktop => "DESKTOP"@,
            DevicePlatformType::Ipad => "IPAD"@,
            DevicePlatformType::AndroidTablet => "ANDROID_TABLET"@,
            DevicePlatformType::Ohana => "OHANA"@,
            DevicePlatformType::Aloha => "ALOHA"@,
            DevicePlatformType::Catalina => "CATALINA"@,
            DevicePlatformType::TclTv => "TCL_TV"@,
            DevicePlatformType::IosPhone => "IOS_PHONE"@,
            DevicePlatformType::IosCatalyst => "IOS_CATALYST"@,
            DevicePlatformType::AndroidPhone => "ANDROID_PHONE"@,
            DevicePlatformType::AndroidAmbiguous => "ANDROID_AMBIGUOUS"@,
            DevicePlatformType::WearOs => "WEAR_OS"@,
            DevicePlatformType::ArWrist => "AR_WRIST"@,
            DevicePlatformType::ArDevice => "AR_DEVICE"@,
            DevicePlatformType::Uwp => "UWP"@,
            DevicePlatformType::Vr => "VR"@,
            DevicePlatformType::CloudApi => "CLOUD_API"@,
            DevicePlatformType::Smartglasses => "SMARTGLASSES"@,
        }
    }

    /// The name under which it crosses to the host.
    pub fn name(&self) -> (s: &'static str)
        ensures
            s@ == self.wire_name(),
    {
        match self {
            DevicePlatformType::Unknown => "UNKNOWN",
            DevicePlatformType::Chrome => "CHROME",
            DevicePlatformType::Firefox => "FIREFOX",
            DevicePlatformType::Ie => "IE",
            DevicePlatformType::Opera => "OPERA",
            DevicePlatformType::Safari => "SAFARI",
            DevicePlatformType::Edge => "EDGE",
            DevicePlatformType::Desktop => "DESKTOP",
            DevicePlatformType::Ipad => "IPAD",
            DevicePlatformType::AndroidTablet => "ANDROID_TABLET",
            DevicePlatformType::Ohana => "OHANA",
            DevicePlatformType::Aloha => "ALOHA",
            DevicePlatformType::Catalina => "CATALINA",
            DevicePlatformType::TclTv => "TCL_TV",
            DevicePlatformType::IosPhone => "IOS_PHONE",
            DevicePlatformType::IosCatalyst => "IOS_CATALYST",
            DevicePlatformType::AndroidPhone => "ANDROID_PHONE",
            DevicePlatformType::AndroidAmbiguous => "ANDROID_AMBIGUOUS",
            DevicePlatformType::WearOs => "WEAR_OS",
            DevicePlatformType::ArWrist => "AR_WRIST",
            DevicePlatformType::ArDevice => "AR_DEVICE",
            DevicePlatformType::Uwp => "UWP",
            DevicePlatformType::Vr => "VR",
            DevicePlatformType::CloudApi => "CLOUD_API",
            DevicePlatformType::Smartglasses => "SMARTGLASSES",
        }
    }
}

/// A version, part by part.
#[derive(Debug, Clone, Copy, PartialEq, Eq)]
pub struct DeviceAppVersion {
    /// The first part.
    pub primary: Option<u32>,
    /// The second part.
    pub secondary: Option<u32>,
    /// The third part.
    pub tertiary: Option<u32>,
    /// The fourth part.
    pub quaternary: Option<u32>,
}

/// The history sync settings that a caller may change.
#[derive(Debug, Clone, Copy, PartialEq, Eq)]
pub struct DeviceHistorySyncConfig {
    /// Days of a full sync.
    pub full_sync_days_limit: Option<u32>,
    /// Megabytes of a full sync.
    pub full_sync_size_mb_limit: Option<u32>,
    /// Megabytes that may be stored.
    pub storage_quota_mb: Option<u32>,
    /// Days of a recent sync.
    pub recent_sync_days_limit: Option<u32>,
    /// Whether call logs are taken.
    pub support_call_log_history: Option<bool>,
    /// Whether group histories are taken.
    pub support_group_history: Option<bool>,
    /// Whether a sync may be asked for.
    pub on_demand_ready: Option<bool>,
    /// Days of thumbnails.
    pub thumbnail_sync_days_limit: Option<u32>,
    /// Messages of each chat at first.
    pub initial_sync_max_messages_per_chat: Option<u32>,
}

/// [`wacore::store::device::default_history_sync_config`], the settings that a
/// caller may change: call logs and group histories are taken, and nothing
/// else is said.
#[verifier::external_body]
fn core_default_config() -> (c: DeviceHistorySyncConfig)
    ensures
        c == default_config(),
{
    let c = wacore::store::device::default_history_sync_config();
    DeviceHistorySyncConfig {
        full_sync_days_limit: c.full_sync_days_limit,
        full_sync_size_mb_limit: c.full_sync_size_mb_limit,
        storage_quota_mb: c.storage_quota_mb,
        recent_sync_days_limit: c.recent_sync_days_limit,
        support_call_log_history: c.support_call_log_history,
        support_group_history: c.support_group_history,
        on_demand_ready: c.on_demand_ready,
        thumbnail_sync_days_limit: c.thumbnail_sync_days_limit,
        initial_sync_max_messages_per_chat: c.initial_sync_max_messages_per_chat,
    }
}

/// The settings that the core starts from.
pub open spec fn default_config() -> DeviceHistorySyncConfig {
    DeviceHistorySyncConfig {
        full_sync_days_limit: None,
        full_sync_size_mb_limit: None,
        storage_quota_mb: None,
        recent_sync_days_limit: None,
        support_call_log_history: Some(true),
        support_group_history: Some(true),
        on_demand_ready: None,
        thumbnail_sync_days_limit: None,
        initial_sync_max_messages_per_chat: None,
    }
}

/// The first of two values that is there.
pub open spec fn first_of<T>(a: Option<T>, b: Option<T>) -> Option<T> {
    if a is Some {
        a
    } else {
        b
    }
}

impl DeviceHistorySyncConfig {
    /// Some settings, changed by those that are given here.
    pub open spec fn merged(self, base: DeviceHistorySyncConfig) -> DeviceHistorySyncConfig {
        DeviceHistorySyncConfig {
            full_sync_days_limit: first_of(self.full_sync_days_limit, base.full_sync_days_limit),
            full_sync_size_mb_limit: first_of(self.full_sync_size_mb_limit, base.full_sync_size_mb_limit),
            storage_quota_mb: first_of(self.storage_quota_mb, base.storage_quota_mb),
            recent_sync_days_limit: first_of(self.recent_sync_days_limit, base.recent_sync_days_limit),
            support_call_log_history: first_of(self.support_call_log_history, base.support_call_log_history),
            support_group_history: first_of(self.support_group_history, base.support_group_history),
            on_demand_ready: first_of(self.on_demand_ready, base.on_demand_ready),
            thumbnail_sync_days_limit: first_of(self.thumbnail_sync_days_limit, base.thumbnail_sync_days_limit),
            initial_sync_max_messages_per_chat: first_of(self.initial_sync_max_messages_per_chat, base.initial_sync_max_messages_per_chat),
        }
    }

    /// Changes some settings by those that are given here.
    pub fn merge_into(self, base: DeviceHistorySyncConfig) -> (c: DeviceHistorySyncConfig)
        ensures
            c == self.merged(base),
            c.full_sync_days_limit == (if self.full_sync_days_limit is Some {
                self.full_sync_days_limit
            } else {
                base.full_sync_days_limit
            }),
            c.full_sync_size_mb_limit == (if self.full_sync_size_mb_limit is Some {
                self.full_sync_size_mb_limit
            } else {
                base.full_sync_size_mb_limit
            }),
            c.storage_quota_mb == (if self.storage_quota_mb is Some {
                self.storage_quota_mb
            } else {
                base.storage_quota_mb
            }),
            c.recent_sync_days_limit == (if self.recent_sync_days_limit is Some {
                self.recent_sync_days_limit
            } else {
                base.recent_sync_days_limit
            }),
            c.support_call_log_history == (if self.support_call_log_history is Some {
                self.support_call_log_history
            } else {
                base.support_call_log_history
            }),
            c.support_group_history == (if self.support_group_history is Some {
                self.support_group_history
            } else {
                base.support_group_history
            }),
            c.on_demand_ready == (if self.on_demand_ready is Some {
                self.on_demand_ready
            } else {
                base.on_demand_ready
            }),
            c.thumbnail_sync_days_limit == (if self.thumbnail_sync_days_limit is Some {
                self.thumbnail_sync_days_limit
            } else {
                base.thumbnail_sync_days_limit
            }),
            c.initial_sync_max_messages_per_chat == (if self.initial_sync_max_messages_per_chat is Some {
                self.initial_sync_max_messages_per_chat
            } else {
                base.initial_sync_max_messages_per_chat
            }),
    {
        let mut base = base;
        if self.full_sync_days_limit.is_some() {
            base.full_sync_days_limit = self.full_sync_days_limit;
        }
        if self.full_sync_size_mb_limit.is_some() {
            base.full_sync_size_mb_limit = self.full_sync_size_mb_limit;
        }
        if self.storage_quota_mb.is_some() {
            base.storage_quota_mb = self.storage_quota_mb;
        }
        if self.recent_sync_days_limit.is_some() {
            base.recent_sync_days_limit = self.recent_sync_days_limit;
        }
        if self.support_call_log_history.is_some() {
            base.support_call_log_history = self.support_call_log_history;
        }
        if self.support_group_history.is_some() {
            base.support_group_history = self.support_group_history;
        }
        if self.on_demand_ready.is_some() {
            base.on_demand_ready = self.on_demand_ready;
        }
        if self.thumbnail_sync_days_limit.is_some() {
            base.thumbnail_sync_days_limit = self.thumbnail_sync_days_limit;
        }
        if self.initial_sync_max_messages_per_chat.is_some() {
            base.initial_sync_max_messages_per_chat = self.initial_sync_max_messages_per_chat;
        }
        base
    }
}

/// What a caller wants a device to say of itself.
#[derive(Debug, Clone, PartialEq, Eq)]
pub struct DevicePropsInput {
    /// The system's name.
    pub os: Option<String>,
    /// The kind of device.
    pub platform_type: Option<DevicePlatformType>,
    /// The version.
    pub version: Option<DeviceAppVersion>,
    /// The history sync settings.
    pub history_sync_config: Option<DeviceHistorySyncConfig>,
}

/// What is set on the device.
#[derive(Debug, Clone, PartialEq, Eq)]
pub struct DevicePropsOverride {
    /// The system's name, if it is set.
    pub os: Option<String>,
    /// The kind of device, if it is set.
    pub platform_type: Option<DevicePlatformType>,
    /// The version, if it is set.
    pub version: Option<DeviceAppVersion>,
    /// The history sync settings, whole, if they are set.
    pub history_sync_config: Option<DeviceHistorySyncConfig>,
}

impl DevicePropsInput {
    /// Turns the wish into what is set on the device. The settings that are
    /// given are merged into the core's defaults, so that setting one does not
    /// drop the others.
    pub fn into_override(self) -> (o: DevicePropsOverride)
        ensures
            opt_view(o.os) == opt_view(self.os),
            o.platform_type == self.platform_type,
            o.version == self.version,
            o.history_sync_config == match self.history_sync_config {
                Some(c) => Some(c.merged(default_config())),
                None => None,
            },
    {
        let history_sync_config = match self.history_sync_config {
            Some(c) => Some(c.merge_into(core_default_config())),
            None => None,
        };
        DevicePropsOverride {
            os: self.os,
            platform_type: self.platform_type,
            version: self.version,
            history_sync_config,
        }
    }
}

/// A setting that is given wins, and one that is not keeps the default; merging
/// the same settings again changes nothing.
pub proof fn merging_is_idempotent(c: DeviceHistorySyncConfig, base: DeviceHistorySyncConfig)
    ensures
        c.merged(c.merged(base)) == c.merged(base),
{
}

} // verus!
