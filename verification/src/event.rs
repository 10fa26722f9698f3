//! The closed set of native event kinds.
//!
//! The native engine tags every event envelope with a wire action name.  The
//! router decodes that name once, into a tagged variant, instead of scattering
//! string comparisons through the dispatch logic.  Each variant other than
//! `RequestCompleted` maps to the name of the optional event-handler method
//! that the host may implement, and a few of them additionally name a cached
//! state snapshot that is updated before the handler runs.

use vstd::prelude::*;

use crate::text::str_eq;

verus! {

/// One kind of event delivered by the native engine.
#[derive(Clone, Copy, Debug, PartialEq, Eq, Structural)]
pub enum EventAction {
    RequestCompleted,
    ActiveSpeakerChanged,
    AppMessage,
    AvailableDevicesUpdated,
    CallStateUpdated,
    Error,
    InputsUpdated,
    LiveStreamError,
    LiveStreamStarted,
    LiveStreamStopped,
    LiveStreamWarning,
    NetworkStatsUpdated,
    ParticipantCountsUpdated,
    ParticipantJoined,
    ParticipantLeft,
    ParticipantUpdated,
    PublishingUpdated,
    RecordingError,
    RecordingStarted,
    RecordingStopped,
    SubscriptionProfilesUpdated,
    SubscriptionsUpdated,
    /// An action name outside the closed set; dispatch ignores it.
    Unknown,
}

/// One of the cached state snapshots kept by the client, readable without a
/// native round-trip.
#[derive(Clone, Copy, Debug, PartialEq, Eq, Structural)]
pub enum SnapshotKind {
    ActiveSpeaker,
    Inputs,
    ParticipantCounts,
    Publishing,
    Subscriptions,
    SubscriptionProfiles,
    NetworkStats,
}

/// Which event kind a wire action name denotes.
pub open spec fn action_of(s: Seq<char>) -> EventAction {
    if s == "request-completed"@ {
        EventAction::RequestCompleted
    } else if s == "active-speaker-changed"@ {
        EventAction::ActiveSpeakerChanged
    } else if s == "app-message"@ {
        EventAction::AppMessage
    } else if s == "available-devices-updated"@ {
        EventAction::AvailableDevicesUpdated
    } else if s == "call-state-updated"@ {
        EventAction::CallStateUpdated
    } else if s == "error"@ {
        EventAction::Error
    } else if s == "inputs-updated"@ {
        EventAction::InputsUpdated
    } else if s == "live-stream-error"@ {
        EventAction::LiveStreamError
    } else if s == "live-stream-started"@ {
        EventAction::LiveStreamStarted
    } else if s == "live-stream-stopped"@ {
        EventAction::LiveStreamStopped
    } else if s == "live-stream-warning"@ {
        EventAction::LiveStreamWarning
    } else if s == "network-stats-updated"@ {
        EventAction::NetworkStatsUpdated
    } else if s == "participant-counts-updated"@ {
        EventAction::ParticipantCountsUpdated
    } else if s == "participant-joined"@ {
        EventAction::ParticipantJoined
    } else if s == "participant-left"@ {
        EventAction::ParticipantLeft
    } else if s == "participant-updated"@ {
        EventAction::ParticipantUpdated
    } else if s == "publishing-updated"@ {
        EventAction::PublishingUpdated
    } else if s == "recording-error"@ {
        EventAction::RecordingError
    } else if s == "recording-started"@ {
        EventAction::RecordingStarted
    } else if s == "recording-stopped"@ {
        EventAction::RecordingStopped
    } else if s == "subscription-profiles-updated"@ {
        EventAction::SubscriptionProfilesUpdated
    } else if s == "subscriptions-updated"@ {
        EventAction::SubscriptionsUpdated
    } else {
        EventAction::Unknown
    }
}

/// Decodes a wire action name into its event kind, once, before dispatch.
pub fn parse_action(s: &str) -> (a: EventAction)
    ensures
        a == action_of(s@),
{
    if str_eq(s, "request-completed") {
        EventAction::RequestCompleted
    } else if str_eq(s, "active-speaker-changed") {
        EventAction::ActiveSpeakerChanged
    } else if str_eq(s, "app-message") {
        EventAction::AppMessage
    } else if str_eq(s, "available-devices-updated") {
        EventAction::AvailableDevicesUpdated
    } else if str_eq(s, "call-state-updated") {
        EventAction::CallStateUpdated
    } else if str_eq(s, "error") {
        EventAction::Error
    } else if str_eq(s, "inputs-updated") {
        EventAction::InputsUpdated
    } else if str_eq(s, "live-stream-error") {
        EventAction::LiveStreamError
    } else if str_eq(s, "live-stream-started") {
        EventAction::LiveStreamStarted
    } else if str_eq(s, "live-stream-stopped") {
        EventAction::LiveStreamStopped
    } else if str_eq(s, "live-stream-warning") {
        EventAction::LiveStreamWarning
    } else if str_eq(s, "network-stats-updated") {
        EventAction::NetworkStatsUpdated
    } else if str_eq(s, "participant-counts-updated") {
        EventAction::ParticipantCountsUpdated
    } else if str_eq(s, "participant-joined") {
        EventAction::ParticipantJoined
    } else if str_eq(s, "participant-left") {
        EventAction::ParticipantLeft
    } else if str_eq(s, "participant-updated") {
        EventAction::ParticipantUpdated
    } else if str_eq(s, "publishing-updated") {
        EventAction::PublishingUpdated
    } else if str_eq(s, "recording-error") {
        EventAction::RecordingError
    } else if str_eq(s, "recording-started") {
        EventAction::RecordingStarted
    } else if str_eq(s, "recording-stopped") {
        EventAction::RecordingStopped
    } else if str_eq(s, "subscription-profiles-updated") {
        EventAction::SubscriptionProfilesUpdated
    } else if str_eq(s, "subscriptions-updated") {
        EventAction::SubscriptionsUpdated
    } else {
        EventAction::Unknown
    }
}

/// The event-handler method name for each event kind, if the kind reaches the
/// handler at all.
pub open spec fn handler_method_of(a: EventAction) -> Option<Seq<char>> {
    match a {
        EventAction::RequestCompleted => None,
        EventAction::ActiveSpeakerChanged => Some("on_active_speaker_changed"@),
        EventAction::AppMessage => Some("on_app_message"@),
        EventAction::AvailableDevicesUpdated => Some("on_available_devices_updated"@),
        EventAction::CallStateUpdated => Some("on_call_state_updated"@),
        EventAction::Error => Some("on_error"@),
        EventAction::InputsUpdated => Some("on_inputs_updated"@),
        EventAction::LiveStreamError => Some("on_live_stream_error"@),
        EventAction::LiveStreamStarted => Some("on_live_stream_started"@),
        EventAction::LiveStreamStopped => Some("on_live_stream_stopped"@),
        EventAction::LiveStreamWarning => Some("on_live_stream_warning"@),
        EventAction::NetworkStatsUpdated => Some("on_network_stats_updated"@),
        EventAction::ParticipantCountsUpdated => Some("on_participant_counts_updated"@),
        EventAction::ParticipantJoined => Some("on_participant_joined"@),
        EventAction::ParticipantLeft => Some("on_participant_left"@),
        EventAction::ParticipantUpdated => Some("on_participant_updated"@),
        EventAction::PublishingUpdated => Some("on_publishing_updated"@),
        EventAction::RecordingError => Some("on_recording_error"@),
        EventAction::RecordingStarted => Some("on_recording_started"@),
        EventAction::RecordingStopped => Some("on_recording_stopped"@),
        EventAction::SubscriptionProfilesUpdated => Some("on_subscription_profiles_updated"@),
        EventAction::SubscriptionsUpdated => Some("on_subscriptions_updated"@),
        EventAction::Unknown => None,
    }
}

/// The event-handler method name for an event kind.
pub fn handler_method_name(a: EventAction) -> (r: Option<&'static str>)
    ensures
        match r {
            Some(m) => handler_method_of(a) == Some(m@),
            None => handler_method_of(a) is None,
        },
{
    match a {
        EventAction::RequestCompleted => None,
        EventAction::ActiveSpeakerChanged => Some("on_active_speaker_changed"),
        EventAction::AppMessage => Some("on_app_message"),
        EventAction::AvailableDevicesUpdated => Some("on_available_devices_updated"),
        EventAction::CallStateUpdated => Some("on_call_state_updated"),
        EventAction::Error => Some("on_error"),
        EventAction::InputsUpdated => Some("on_inputs_updated"),
        EventAction::LiveStreamError => Some("on_live_stream_error"),
        EventAction::LiveStreamStarted => Some("on_live_stream_started"),
        EventAction::LiveStreamStopped => Some("on_live_stream_stopped"),
        EventAction::LiveStreamWarning => Some("on_live_stream_warning"),
        EventAction::NetworkStatsUpdated => Some("on_network_stats_updated"),
        EventAction::ParticipantCountsUpdated => Some("on_participant_counts_updated"),
        EventAction::ParticipantJoined => Some("on_participant_joined"),
        EventAction::ParticipantLeft => Some("on_participant_left"),
        EventAction::ParticipantUpdated => Some("on_participant_updated"),
        EventAction::PublishingUpdated => Some("on_publishing_updated"),
        EventAction::RecordingError => Some("on_recording_error"),
        EventAction::RecordingStarted => Some("on_recording_started"),
        EventAction::RecordingStopped => Some("on_recording_stopped"),
        EventAction::SubscriptionProfilesUpdated => Some("on_subscription_profiles_updated"),
        EventAction::SubscriptionsUpdated => Some("on_subscriptions_updated"),
        EventAction::Unknown => None,
    }
}

/// The cached snapshot an event kind refreshes before its handler runs, if
/// any.
pub open spec fn snapshot_kind_of(a: EventAction) -> Option<SnapshotKind> {
    match a {
        EventAction::ActiveSpeakerChanged => Some(SnapshotKind::ActiveSpeaker),
        EventAction::InputsUpdated => Some(SnapshotKind::Inputs),
        EventAction::ParticipantCountsUpdated => Some(SnapshotKind::ParticipantCounts),
        EventAction::PublishingUpdated => Some(SnapshotKind::Publishing),
        EventAction::SubscriptionsUpdated => Some(SnapshotKind::Subscriptions),
        EventAction::SubscriptionProfilesUpdated => Some(SnapshotKind::SubscriptionProfiles),
        EventAction::NetworkStatsUpdated => Some(SnapshotKind::NetworkStats),
        _ => None,
    }
}

/// The cached snapshot an event kind refreshes, if any.
pub fn snapshot_kind(a: EventAction) -> (r: Option<SnapshotKind>)
    ensures
        r == snapshot_kind_of(a),
{
    match a {
        EventAction::ActiveSpeakerChanged => Some(SnapshotKind::ActiveSpeaker),
        EventAction::InputsUpdated => Some(SnapshotKind::Inputs),
        EventAction::ParticipantCountsUpdated => Some(SnapshotKind::ParticipantCounts),
        EventAction::PublishingUpdated => Some(SnapshotKind::Publishing),
        EventAction::SubscriptionsUpdated => Some(SnapshotKind::Subscriptions),
        EventAction::SubscriptionProfilesUpdated => Some(SnapshotKind::SubscriptionProfiles),
        EventAction::NetworkStatsUpdated => Some(SnapshotKind::NetworkStats),
        _ => None,
    }
}

} // verus!
