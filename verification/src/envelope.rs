//! The canonical wire envelopes.
//!
//! Two shapes are published on the internal bus: [`GatewayEvent`] for guild
//! and membership lifecycle events, and [`InteractionEvent`] for
//! interaction-created events, where the channel and acting user are
//! mandatory and a short-lived response token rides along. Field names are
//! part of the wire contract shared with an independent consumer.

use vstd::prelude::*;

use crate::event::opt_str_view;
use crate::json::{JsonVal, JsonValue};

verus! {

/// Mathematical model of a generic envelope.
#[verifier::ext_equal]
pub struct GatewayEventV {
    pub event_id: Seq<char>,
    pub event_type: Seq<char>,
    pub shard_id: u64,
    pub timestamp: u64,
    pub guild_id: Option<Seq<char>>,
    pub channel_id: Option<Seq<char>>,
    pub user_id: Option<Seq<char>>,
    pub data: JsonVal,
}

/// Generic envelope for guild and membership lifecycle events.
///
/// `event_id` is freshly generated per normalization call and never derived
/// from the event's content. `event_type` is one of the closed set of dotted
/// names. Optional context fields are present exactly when the source event
/// carries that context.
#[derive(Debug, PartialEq, Eq)]
pub struct GatewayEvent {
    pub event_id: String,
    pub event_type: String,
    pub shard_id: u64,
    pub timestamp: u64,
    pub guild_id: Option<String>,
    pub channel_id: Option<String>,
    pub user_id: Option<String>,
    pub data: JsonValue,
}

impl View for GatewayEvent {
    type V = GatewayEventV;

    open spec fn view(&self) -> GatewayEventV {
        GatewayEventV {
            event_id: self.event_id@,
            event_type: self.event_type@,
            shard_id: self.shard_id,
            timestamp: self.timestamp,
            guild_id: opt_str_view(self.guild_id),
            channel_id: opt_str_view(self.channel_id),
            user_id: opt_str_view(self.user_id),
            data: self.data.as_val(),
        }
    }
}

/// Mathematical model of an interaction envelope.
#[verifier::ext_equal]
pub struct InteractionEventV {
    pub event_id: Seq<char>,
    pub shard_id: u64,
    pub timestamp: u64,
    pub interaction_id: Seq<char>,
    pub interaction_token: Seq<char>,
    pub guild_id: Option<Seq<char>>,
    pub channel_id: Seq<char>,
    pub user_id: Seq<char>,
    pub command_name: Option<Seq<char>>,
    pub subcommand: Option<Seq<char>>,
    pub data: JsonVal,
}

/// Envelope for interaction-created events.
///
/// The channel and acting user are mandatory here, unlike in the generic
/// shape. `interaction_token` is a short-lived response credential: it is
/// published only on the internal bus and must never be logged or forwarded
/// outside it.
#[derive(Debug, PartialEq, Eq)]
pub struct InteractionEvent {
    pub event_id: String,
    pub shard_id: u64,
    pub timestamp: u64,
    pub interaction_id: String,
    pub interaction_token: String,
    pub guild_id: Option<String>,
    pub channel_id: String,
    pub user_id: String,
    pub command_name: Option<String>,
    pub subcommand: Option<String>,
    pub data: JsonValue,
}

impl View for InteractionEvent {
    type V = InteractionEventV;

    open spec fn view(&self) -> InteractionEventV {
        InteractionEventV {
            event_id: self.event_id@,
            shard_id: self.shard_id,
            timestamp: self.timestamp,
            interaction_id: self.interaction_id@,
            interaction_token: self.interaction_token@,
            guild_id: opt_str_view(self.guild_id),
            channel_id: self.channel_id@,
            user_id: self.user_id@,
            command_name: opt_str_view(self.command_name),
            subcommand: opt_str_view(self.subcommand),
            data: self.data.as_val(),
        }
    }
}

/// Mathematical model of a canonical envelope of either shape.
#[verifier::ext_equal]
pub enum EnvelopeV {
    Generic(GatewayEventV),
    Interaction(InteractionEventV),
}

impl EnvelopeV {
    /// The envelope's unique identifier.
    pub open spec fn event_id(self) -> Seq<char> {
        match self {
            EnvelopeV::Generic(g) => g.event_id,
            EnvelopeV::Interaction(i) => i.event_id,
        }
    }
}

/// A canonical envelope of either shape.
#[derive(Debug, PartialEq, Eq)]
pub enum Envelope {
    Generic(GatewayEvent),
    Interaction(InteractionEvent),
}

impl View for Envelope {
    type V = EnvelopeV;

    open spec fn view(&self) -> EnvelopeV {
        match self {
            Envelope::Generic(g) => EnvelopeV::Generic(g@),
            Envelope::Interaction(i) => EnvelopeV::Interaction(i@),
        }
    }
}

/// The view of an optional envelope.
pub open spec fn opt_envelope_view(r: Option<Envelope>) -> Option<EnvelopeV> {
    match r {
        Some(env) => Some(env@),
        None => None,
    }
}

} // verus!
