//! Cached state snapshots.
//!
//! The client keeps the last-known value of several pieces of call state,
//! each updated when the matching event arrives and read without a native
//! round-trip.  A snapshot is the event payload verbatim, as JSON text.  The
//! update happens before the event handler is invoked, so a getter called
//! from inside the handler already observes the new value.

use vstd::prelude::*;

use crate::event::SnapshotKind;

verus! {

/// The plain-value description of the snapshot store.
pub struct SnapshotsView {
    pub active_speaker: Seq<char>,
    pub inputs: Seq<char>,
    pub participant_counts: Seq<char>,
    pub publishing: Seq<char>,
    pub subscriptions: Seq<char>,
    pub subscription_profiles: Seq<char>,
    pub network_stats: Seq<char>,
}

impl SnapshotsView {
    /// The snapshot of one kind.
    pub open spec fn get(self, k: SnapshotKind) -> Seq<char> {
        match k {
            SnapshotKind::ActiveSpeaker => self.active_speaker,
            SnapshotKind::Inputs => self.inputs,
            SnapshotKind::ParticipantCounts => self.participant_counts,
            SnapshotKind::Publishing => self.publishing,
            SnapshotKind::Subscriptions => self.subscriptions,
            SnapshotKind::SubscriptionProfiles => self.subscription_profiles,
            SnapshotKind::NetworkStats => self.network_stats,
        }
    }

    /// The store with the snapshot of one kind replaced.
    pub open spec fn with(self, k: SnapshotKind, v: Seq<char>) -> SnapshotsView {
        match k {
            SnapshotKind::ActiveSpeaker => SnapshotsView { active_speaker: v, ..self },
            SnapshotKind::Inputs => SnapshotsView { inputs: v, ..self },
            SnapshotKind::ParticipantCounts => SnapshotsView { participant_counts: v, ..self },
            SnapshotKind::Publishing => SnapshotsView { publishing: v, ..self },
            SnapshotKind::Subscriptions => SnapshotsView { subscriptions: v, ..self },
            SnapshotKind::SubscriptionProfiles => SnapshotsView { subscription_profiles: v, ..self },
            SnapshotKind::NetworkStats => SnapshotsView { network_stats: v, ..self },
        }
    }
}

/// The snapshot store: one JSON text per snapshot kind.
pub struct Snapshots {
    active_speaker: String,
    inputs: String,
    participant_counts: String,
    publishing: String,
    subscriptions: String,
    subscription_profiles: String,
    network_stats: String,
}

impl View for Snapshots {
    type V = SnapshotsView;

    closed spec fn view(&self) -> SnapshotsView {
        SnapshotsView {
            active_speaker: self.active_speaker@,
            inputs: self.inputs@,
            participant_counts: self.participant_counts@,
            publishing: self.publishing@,
            subscriptions: self.subscriptions@,
            subscription_profiles: self.subscription_profiles@,
            network_stats: self.network_stats@,
        }
    }
}

impl Snapshots {
    /// A store holding the given initial values, which the client reads from
    /// the native engine right after creation.
    pub fn new(
        active_speaker: String,
        inputs: String,
        participant_counts: String,
        publishing: String,
        subscriptions: String,
        subscription_profiles: String,
        network_stats: String,
    ) -> (r: Self)
        ensures
            r@ == (SnapshotsView {
                active_speaker: active_speaker@,
                inputs: inputs@,
                participant_counts: participant_counts@,
                publishing: publishing@,
                subscriptions: subscriptions@,
                subscription_profiles: subscription_profiles@,
                network_stats: network_stats@,
            }),
    {
        Snapshots {
            active_speaker,
            inputs,
            participant_counts,
            publishing,
            subscriptions,
            subscription_profiles,
            network_stats,
        }
    }

    /// Replaces the snapshot of one kind.
    pub fn set(&mut self, k: SnapshotKind, v: String)
        ensures
            final(self)@ == old(self)@.with(k, v@),
    {
        match k {
            SnapshotKind::ActiveSpeaker => {
                self.active_speaker = v;
            },
            SnapshotKind::Inputs => {
                self.inputs = v;
            },
            SnapshotKind::ParticipantCounts => {
                self.participant_counts = v;
            },
            SnapshotKind::Publishing => {
                self.publishing = v;
            },
            SnapshotKind::Subscriptions => {
                self.subscriptions = v;
            },
            SnapshotKind::SubscriptionProfiles => {
                self.subscription_profiles = v;
            },
            SnapshotKind::NetworkStats => {
                self.network_stats = v;
            },
        }
    }

    /// Reads the snapshot of one kind.
    pub fn get(&self, k: SnapshotKind) -> (r: &String)
        ensures
            r@ == self@.get(k),
    {
        match k {
            SnapshotKind::ActiveSpeaker => &self.active_speaker,
            SnapshotKind::Inputs => &self.inputs,
            SnapshotKind::ParticipantCounts => &self.participant_counts,
            SnapshotKind::Publishing => &self.publishing,
            SnapshotKind::Subscriptions => &self.subscriptions,
            SnapshotKind::SubscriptionProfiles => &self.subscription_profiles,
            SnapshotKind::NetworkStats => &self.network_stats,
        }
    }
}

} // verus!
