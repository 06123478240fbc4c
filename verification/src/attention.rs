//! Attention policy: how urgently a signal is brought to the user.

use crate::restore::SignalType;
use vstd::prelude::*;

verus! {

/// How much a routed signal interrupts.
#[derive(Debug, Clone, Copy, PartialEq, Eq, Structural)]
pub enum AttentionPriority {
    Blocking,
    Active,
    Passive,
}

/// Where a routed signal is shown.
#[derive(Debug, Clone, Copy, PartialEq, Eq, Structural)]
pub enum AttentionChannel {
    BannerAndSound,
    Banner,
    Feed,
}

/// A signal of a capsule, with a line that describes it.
#[derive(Debug, PartialEq, Eq)]
pub struct AttentionEvent {
    pub capsule_id: String,
    pub signal: SignalType,
    pub summary: String,
}

pub struct AttentionEventView {
    pub capsule_id: Seq<char>,
    pub signal: SignalType,
    pub summary: Seq<char>,
}

impl View for AttentionEvent {
    type V = AttentionEventView;

    open spec fn view(&self) -> AttentionEventView {
        AttentionEventView {
            capsule_id: self.capsule_id@,
            signal: self.signal,
            summary: self.summary@,
        }
    }
}

impl Clone for AttentionEvent {
    fn clone(&self) -> (copy: Self)
        ensures
            copy@ == self@,
    {
        AttentionEvent {
            capsule_id: self.capsule_id.clone(),
            signal: self.signal,
            summary: self.summary.clone(),
        }
    }
}

/// A signal after routing.
#[derive(Debug, PartialEq, Eq)]
pub struct RoutedAttention {
    pub capsule_id: String,
    pub priority: AttentionPriority,
    pub channel: AttentionChannel,
    pub requires_ack: bool,
    pub summary: String,
}

pub struct RoutedAttentionView {
    pub capsule_id: Seq<char>,
    pub priority: AttentionPriority,
    pub channel: AttentionChannel,
    pub requires_ack: bool,
    pub summary: Seq<char>,
}

impl View for RoutedAttention {
    type V = RoutedAttentionView;

    open spec fn view(&self) -> RoutedAttentionView {
        RoutedAttentionView {
            capsule_id: self.capsule_id@,
            priority: self.priority,
            channel: self.channel,
            requires_ack: self.requires_ack,
            summary: self.summary@,
        }
    }
}

impl Clone for RoutedAttention {
    fn clone(&self) -> (copy: Self)
        ensures
            copy@ == self@,
    {
        RoutedAttention {
            capsule_id: self.capsule_id.clone(),
            priority: self.priority,
            channel: self.channel,
            requires_ack: self.requires_ack,
            summary: self.summary.clone(),
        }
    }
}

/// The priority of a signal.
pub open spec fn priority_of(signal: SignalType) -> AttentionPriority {
    match signal {
        SignalType::CriticalFailure => AttentionPriority::Blocking,
        SignalType::NeedsDecision => AttentionPriority::Active,
        SignalType::PassiveCompletion => AttentionPriority::Passive,
    }
}

/// The channel of a signal.
pub open spec fn channel_of(signal: SignalType) -> AttentionChannel {
    match signal {
        SignalType::CriticalFailure => AttentionChannel::BannerAndSound,
        SignalType::NeedsDecision => AttentionChannel::Banner,
        SignalType::PassiveCompletion => AttentionChannel::Feed,
    }
}

/// Whether a signal has to be acknowledged.
pub open spec fn needs_ack(signal: SignalType) -> bool {
    match signal {
        SignalType::CriticalFailure => true,
        SignalType::NeedsDecision => true,
        SignalType::PassiveCompletion => false,
    }
}

/// The priority of a signal.
pub fn signal_priority(signal: SignalType) -> (priority: AttentionPriority)
    ensures
        priority == priority_of(signal),
{
    match signal {
        SignalType::CriticalFailure => AttentionPriority::Blocking,
        SignalType::NeedsDecision => AttentionPriority::Active,
        SignalType::PassiveCompletion => AttentionPriority::Passive,
    }
}

/// The channel of a signal.
pub fn signal_channel(signal: SignalType) -> (channel: AttentionChannel)
    ensures
        channel == channel_of(signal),
{
    match signal {
        SignalType::CriticalFailure => AttentionChannel::BannerAndSound,
        SignalType::NeedsDecision => AttentionChannel::Banner,
        SignalType::PassiveCompletion => AttentionChannel::Feed,
    }
}

/// Whether a signal has to be acknowledged.
pub fn signal_requires_ack(signal: SignalType) -> (ack: bool)
    ensures
        ack == needs_ack(signal),
{
    match signal {
        SignalType::CriticalFailure => true,
        SignalType::NeedsDecision => true,
        SignalType::PassiveCompletion => false,
    }
}

/// The attention policy. It holds no state.
#[derive(Debug, Clone, Copy)]
pub struct AttentionPolicy;

impl Default for AttentionPolicy {
    fn default() -> (policy: Self) {
        AttentionPolicy
    }
}

impl AttentionPolicy {
    /// Routes an event: a critical failure blocks, with banner and sound, and
    /// wants an acknowledgement; a needed decision is active, with a banner,
    /// and wants one too; a passive completion goes to the feed and wants none.
    pub fn route(&self, event: &AttentionEvent) -> (routed: RoutedAttention)
        ensures
            routed@ == (RoutedAttentionView {
                capsule_id: event.capsule_id@,
                priority: priority_of(event.signal),
                channel: channel_of(event.signal),
                requires_ack: needs_ack(event.signal),
                summary: event.summary@,
            }),
    {
        RoutedAttention {
            capsule_id: event.capsule_id.clone(),
            priority: signal_priority(event.signal),
            channel: signal_channel(event.signal),
            requires_ack: signal_requires_ack(event.signal),
            summary: event.summary.clone(),
        }
    }
}

} // verus!
