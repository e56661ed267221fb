//! What a caller's settings change, and what they leave.

use vstd::prelude::*;

use crate::client_profile::{
    android_preset, ios_preset, macos_preset, smb_android_preset, web_preset, windows_preset,
    ClientProfileInput, ClientProfileOverrides, ClientProfileView,
};
use crate::device_props::{default_config, DeviceHistorySyncConfig, DevicePlatformType};
use crate::errors::BridgeErrorView;
use crate::history_sync_admission::{
    opt_field, policy_of, HistorySyncMetadata, MetadataValueView, Policies,
};
use crate::text::decimal;

verus! {

/// An override wins in its own field, and every other field stays.
pub proof fn an_override_wins_in_its_own_field(o: ClientProfileOverrides, p: ClientProfileView)
    ensures
        o.over(p).user_agent_platform == p.user_agent_platform,
        o.over(p).device == p.device,
        o.over(p).os_version == p.os_version,
        o.over(p).manufacturer == p.manufacturer,
        o.over(p).include_web_info == p.include_web_info,
        o.phone_id matches Some(id) ==> o.over(p).phone_id == Some(id@),
        o.phone_id is None ==> o.over(p).phone_id == p.phone_id,
        o.locale_language matches Some(l) ==> o.over(p).locale_language == l@,
        o.locale_language is None ==> o.over(p).locale_language == p.locale_language,
        o.locale_country matches Some(c) ==> o.over(p).locale_country == c@,
        o.locale_country is None ==> o.over(p).locale_country == p.locale_country,
        o.passive_login matches Some(b) ==> o.over(p).passive_login == b,
        o.passive_login is None ==> o.over(p).passive_login == p.passive_login,
        o.over(o.over(p)) == o.over(p),
{
}

/// Each client has its own number, and what it says of its device; only the
/// web client sends web details, and all but it say the version that they are
/// given.
pub proof fn each_client_says_what_it_is(input: ClientProfileInput)
    ensures
        ({
            let p = input.meant();
            &&& input is Web ==> p.user_agent_platform == 14 && p.device == "Desktop"@
                && p.manufacturer == ""@ && p.os_version == "0.1.0"@
            &&& input matches ClientProfileInput::Android { os_version, .. } ==> p.user_agent_platform
                == 0 && p.device == "Smartphone"@ && p.manufacturer == ""@ && p.os_version
                == os_version@
            &&& input matches ClientProfileInput::SmbAndroid { os_version, .. }
                ==> p.user_agent_platform == 10 && p.device == "Smartphone"@ && p.manufacturer
                == ""@ && p.os_version == os_version@
            &&& input matches ClientProfileInput::Ios { os_version, .. } ==> p.user_agent_platform
                == 1 && p.device == "iPhone"@ && p.manufacturer == "Apple"@ && p.os_version
                == os_version@
            &&& input matches ClientProfileInput::Macos { os_version, .. } ==> p.user_agent_platform
                == 24 && p.device == "Desktop"@ && p.manufacturer == "Apple"@ && p.os_version
                == os_version@
            &&& input matches ClientProfileInput::Windows { os_version, .. }
                ==> p.user_agent_platform == 13 && p.device == "Desktop"@ && p.manufacturer == ""@
                && p.os_version == os_version@
            &&& p.include_web_info <==> input is Web
        }),
{
}

/// What a preset leaves to the caller is active, has no phone of its own, and
/// speaks English in the United States.
pub proof fn a_preset_leaves_the_rest_plain(os_version: Seq<char>)
    ensures
        forall|p: ClientProfileView|
            #![trigger p.locale_country]
            (p == web_preset() || p == android_preset(os_version) || p == smb_android_preset(
                os_version,
            ) || p == ios_preset(os_version) || p == macos_preset(os_version) || p
                == windows_preset(os_version)) ==> !p.passive_login && p.phone_id is None
                && p.locale_language == "en"@ && p.locale_country == "US"@,
{
}

/// A setting that is given wins, and one that is not stays, each in its own
/// field.
pub proof fn a_given_setting_wins(c: DeviceHistorySyncConfig, base: DeviceHistorySyncConfig)
    ensures
        c.full_sync_days_limit is Some ==> c.merged(base).full_sync_days_limit == c.full_sync_days_limit,
        c.full_sync_days_limit is None ==> c.merged(base).full_sync_days_limit == base.full_sync_days_limit,
        c.full_sync_size_mb_limit is Some ==> c.merged(base).full_sync_size_mb_limit == c.full_sync_size_mb_limit,
        c.full_sync_size_mb_limit is None ==> c.merged(base).full_sync_size_mb_limit == base.full_sync_size_mb_limit,
        c.storage_quota_mb is Some ==> c.merged(base).storage_quota_mb == c.storage_quota_mb,
        c.storage_quota_mb is None ==> c.merged(base).storage_quota_mb == base.storage_quota_mb,
        c.recent_sync_days_limit is Some ==> c.merged(base).recent_sync_days_limit == c.recent_sync_days_limit,
        c.recent_sync_days_limit is None ==> c.merged(base).recent_sync_days_limit == base.recent_sync_days_limit,
        c.support_call_log_history is Some ==> c.merged(base).support_call_log_history == c.support_call_log_history,
        c.support_call_log_history is None ==> c.merged(base).support_call_log_history == base.support_call_log_history,
        c.support_group_history is Some ==> c.merged(base).support_group_history == c.support_group_history,
        c.support_group_history is None ==> c.merged(base).support_group_history == base.support_group_history,
        c.on_demand_ready is Some ==> c.merged(base).on_demand_ready == c.on_demand_ready,
        c.on_demand_ready is None ==> c.merged(base).on_demand_ready == base.on_demand_ready,
        c.thumbnail_sync_days_limit is Some ==> c.merged(base).thumbnail_sync_days_limit == c.thumbnail_sync_days_limit,
        c.thumbnail_sync_days_limit is None ==> c.merged(base).thumbnail_sync_days_limit == base.thumbnail_sync_days_limit,
        c.initial_sync_max_messages_per_chat is Some ==> c.merged(base).initial_sync_max_messages_per_chat == c.initial_sync_max_messages_per_chat,
        c.initial_sync_max_messages_per_chat is None ==> c.merged(base).initial_sync_max_messages_per_chat == base.initial_sync_max_messages_per_chat,
{
}

/// The core starts with call logs and group histories, and nothing else said.
pub proof fn the_core_takes_call_logs_and_groups()
    ensures
        default_config().full_sync_days_limit == None::<u32>,
        default_config().full_sync_size_mb_limit == None::<u32>,
        default_config().storage_quota_mb == None::<u32>,
        default_config().recent_sync_days_limit == None::<u32>,
        default_config().support_call_log_history == Some(true),
        default_config().support_group_history == Some(true),
        default_config().on_demand_ready == None::<bool>,
        default_config().thumbnail_sync_days_limit == None::<u32>,
        default_config().initial_sync_max_messages_per_chat == None::<u32>,
{
}

/// A kind of device crosses under its own name.
pub proof fn a_platform_has_its_own_name(p: DevicePlatformType)
    ensures
        p == DevicePlatformType::Unknown ==> p.wire_name() == "UNKNOWN"@,
        p == DevicePlatformType::Chrome ==> p.wire_name() == "CHROME"@,
        p == DevicePlatformType::Firefox ==> p.wire_name() == "FIREFOX"@,
        p == DevicePlatformType::Ie ==> p.wire_name() == "IE"@,
        p == DevicePlatformType::Opera ==> p.wire_name() == "OPERA"@,
        p == DevicePlatformType::Safari ==> p.wire_name() == "SAFARI"@,
        p == DevicePlatformType::Edge ==> p.wire_name() == "EDGE"@,
        p == DevicePlatformType::Desktop ==> p.wire_name() == "DESKTOP"@,
        p == DevicePlatformType::Ipad ==> p.wire_name() == "IPAD"@,
        p == DevicePlatformType::AndroidTablet ==> p.wire_name() == "ANDROID_TABLET"@,
        p == DevicePlatformType::Ohana ==> p.wire_name() == "OHANA"@,
        p == DevicePlatformType::Aloha ==> p.wire_name() == "ALOHA"@,
        p == DevicePlatformType::Catalina ==> p.wire_name() == "CATALINA"@,
        p == DevicePlatformType::TclTv ==> p.wire_name() == "TCL_TV"@,
        p == DevicePlatformType::IosPhone ==> p.wire_name() == "IOS_PHONE"@,
        p == DevicePlatformType::IosCatalyst ==> p.wire_name() == "IOS_CATALYST"@,
        p == DevicePlatformType::AndroidPhone ==> p.wire_name() == "ANDROID_PHONE"@,
        p == DevicePlatformType::AndroidAmbiguous ==> p.wire_name() == "ANDROID_AMBIGUOUS"@,
        p == DevicePlatformType::WearOs ==> p.wire_name() == "WEAR_OS"@,
        p == DevicePlatformType::ArWrist ==> p.wire_name() == "AR_WRIST"@,
        p == DevicePlatformType::ArDevice ==> p.wire_name() == "AR_DEVICE"@,
        p == DevicePlatformType::Uwp ==> p.wire_name() == "UWP"@,
        p == DevicePlatformType::Vr ==> p.wire_name() == "VR"@,
        p == DevicePlatformType::CloudApi ==> p.wire_name() == "CLOUD_API"@,
        p == DevicePlatformType::Smartglasses ==> p.wire_name() == "SMARTGLASSES"@,
{
}

/// Policies decide where they have the callback, do not where there is none,
/// and are refused by name where they are no policies.
pub proof fn only_a_callback_decides(p: Policies)
    ensures
        policy_of(p) == Ok::<bool, BridgeErrorView>(true) <==> p is Callback,
        policy_of(p) == Ok::<bool, BridgeErrorView>(false) <==> (p is Absent || p is NoCallback),
        policy_of(p) matches Err(e) ==> e is InvalidArgument,
        p is NotAnObject ==> (policy_of(p) matches Err(
            BridgeErrorView::InvalidArgument { field, reason },
        ) && field == "policies"@ && reason == "must be an object"@),
        p is Unreadable ==> (policy_of(p) matches Err(
            BridgeErrorView::InvalidArgument { field, reason },
        ) && field == "policies.historySyncAdmission"@ && reason
            == "could not read the callback"@),
        p is NotAFunction ==> (policy_of(p) matches Err(
            BridgeErrorView::InvalidArgument { field, reason },
        ) && field == "policies.historySyncAdmission"@ && reason == "must be a function"@),
{
}

/// How many things are known of a sync.
pub open spec fn known(m: HistorySyncMetadata) -> int {
    (if m.sync_type is Some { 1int } else { 0 }) + (if m.chunk_order is Some { 1int } else { 0 })
        + (if m.progress is Some { 1int } else { 0 }) + (if m.file_length is Some { 1int } else { 0 })
        + (if m.inline_payload_len is Some { 1int } else { 0 })
        + (if m.peer_data_request_session_id is Some { 1int } else { 0 })
}

/// Whether a property with this value stands among some.
pub open spec fn says(
    fields: Seq<(Seq<char>, MetadataValueView)>,
    name: Seq<char>,
    value: MetadataValueView,
) -> bool {
    fields.contains((name, value))
}

/// What is said stays said, whatever is said after it.
proof fn said_stays(
    fields: Seq<(Seq<char>, MetadataValueView)>,
    more: Seq<(Seq<char>, MetadataValueView)>,
    name: Seq<char>,
    value: MetadataValueView,
)
    ensures
        says(fields, name, value) ==> says(fields + more, name, value),
{
    if says(fields, name, value) {
        let i = choose|i: int| 0 <= i < fields.len() && fields[i] == (name, value);
        assert((fields + more)[i] == (name, value));
    }
}

/// What is added is said.
proof fn said_last(
    fields: Seq<(Seq<char>, MetadataValueView)>,
    name: Seq<char>,
    value: MetadataValueView,
)
    ensures
        says(fields + opt_field(name, Some(value)), name, value),
{
    assert((fields + opt_field(name, Some(value)))[fields.len() as int] == (name, value));
}

/// What is known of a sync is told under its own name, and what is not is not
/// told; the length of a file crosses as its digits.
pub proof fn what_is_known_is_told(m: HistorySyncMetadata)
    ensures
        m.fields().len() == known(m),
        m.sync_type matches Some(n) ==> says(
            m.fields(),
            "syncType"@,
            MetadataValueView::Number(n as int),
        ),
        m.chunk_order matches Some(n) ==> says(
            m.fields(),
            "chunkOrder"@,
            MetadataValueView::Number(n as int),
        ),
        m.progress matches Some(n) ==> says(
            m.fields(),
            "progress"@,
            MetadataValueView::Number(n as int),
        ),
        m.file_length matches Some(n) ==> says(
            m.fields(),
            "fileLength"@,
            MetadataValueView::Text(decimal(n as nat)),
        ),
        m.inline_payload_len matches Some(n) ==> says(
            m.fields(),
            "inlinePayloadLen"@,
            MetadataValueView::Number(n as int),
        ),
        m.peer_data_request_session_id matches Some(id) ==> says(
            m.fields(),
            "peerDataRequestSessionId"@,
            MetadataValueView::Text(id@),
        ),
{
    let a = opt_field(
        "syncType"@,
        match m.sync_type {
            Some(n) => Some(MetadataValueView::Number(n as int)),
            None => None,
        },
    );
    let b = opt_field(
        "chunkOrder"@,
        match m.chunk_order {
            Some(n) => Some(MetadataValueView::Number(n as int)),
            None => None,
        },
    );
    let c = opt_field(
        "progress"@,
        match m.progress {
            Some(n) => Some(MetadataValueView::Number(n as int)),
            None => None,
        },
    );
    let d = opt_field(
        "fileLength"@,
        match m.file_length {
            Some(n) => Some(MetadataValueView::Text(decimal(n as nat))),
            None => None,
        },
    );
    let e = opt_field(
        "inlinePayloadLen"@,
        match m.inline_payload_len {
            Some(n) => Some(MetadataValueView::Number(n as int)),
            None => None,
        },
    );
    let f = opt_field(
        "peerDataRequestSessionId"@,
        match m.peer_data_request_session_id {
            Some(id) => Some(MetadataValueView::Text(id@)),
            None => None,
        },
    );
    let none = Seq::<(Seq<char>, MetadataValueView)>::empty();
    assert(none + a =~= a);
    assert(m.fields() == a + b + c + d + e + f);
    if let Some(n) = m.sync_type {
        let value = MetadataValueView::Number(n as int);
        said_last(none, "syncType"@, value);
        said_stays(a, b, "syncType"@, value);
        said_stays(a + b, c, "syncType"@, value);
        said_stays(a + b + c, d, "syncType"@, value);
        said_stays(a + b + c + d, e, "syncType"@, value);
        said_stays(a + b + c + d + e, f, "syncType"@, value);
    }
    if let Some(n) = m.chunk_order {
        let value = MetadataValueView::Number(n as int);
        said_last(a, "chunkOrder"@, value);
        said_stays(a + b, c, "chunkOrder"@, value);
        said_stays(a + b + c, d, "chunkOrder"@, value);
        said_stays(a + b + c + d, e, "chunkOrder"@, value);
        said_stays(a + b + c + d + e, f, "chunkOrder"@, value);
    }
    if let Some(n) = m.progress {
        let value = MetadataValueView::Number(n as int);
        said_last(a + b, "progress"@, value);
        said_stays(a + b + c, d, "progress"@, value);
        said_stays(a + b + c + d, e, "progress"@, value);
        said_stays(a + b + c + d + e, f, "progress"@, value);
    }
    if let Some(n) = m.file_length {
        let value = MetadataValueView::Text(decimal(n as nat));
        said_last(a + b + c, "fileLength"@, value);
        said_stays(a + b + c + d, e, "fileLength"@, value);
        said_stays(a + b + c + d + e, f, "fileLength"@, value);
    }
    if let Some(n) = m.inline_payload_len {
        let value = MetadataValueView::Number(n as int);
        said_last(a + b + c + d, "inlinePayloadLen"@, value);
        said_stays(a + b + c + d + e, f, "inlinePayloadLen"@, value);
    }
    if let Some(id) = m.peer_data_request_session_id {
        let value = MetadataValueView::Text(id@);
        said_last(a + b + c + d + e, "peerDataRequestSessionId"@, value);
    }
}

} // verus!
