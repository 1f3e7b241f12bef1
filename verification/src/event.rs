//! The upstream event model.
//!
//! One value of [`UpstreamEvent`] stands for one notification from the
//! real-time gateway connection, holding as plain values exactly what
//! normalization reads: identifiers already in text form, the member's
//! role list in source order, and the guild payload already re-encoded as a
//! structured value (`None` when that re-encoding failed upstream).

use vstd::prelude::*;

use crate::json::{JsonVal, JsonValue};

verus! {

/// Mathematical model of an interaction-created notification.
#[verifier::ext_equal]
pub struct InteractionInputV {
    pub interaction_id: Seq<char>,
    pub interaction_type: Seq<char>,
    pub token: Seq<char>,
    pub guild_id: Option<Seq<char>>,
    pub channel_id: Seq<char>,
    pub user_id: Seq<char>,
    pub command_name: Option<Seq<char>>,
    pub subcommand: Option<Seq<char>>,
}

/// The fields of an interaction-created notification.
///
/// `user_id` is the acting user: the canonical author of the interaction
/// (the guild member's user when the interaction was invoked in a guild,
/// otherwise the direct invoker). `interaction_type` is the upstream kind's
/// tag name in its debug form. `command_name` and `subcommand` are present
/// only for command-type interactions.
#[derive(Debug, Clone, PartialEq, Eq)]
pub struct InteractionInput {
    pub interaction_id: String,
    pub interaction_type: String,
    pub token: String,
    pub guild_id: Option<String>,
    pub channel_id: String,
    pub user_id: String,
    pub command_name: Option<String>,
    pub subcommand: Option<String>,
}

/// The view of an optional string.
pub open spec fn opt_str_view(o: Option<String>) -> Option<Seq<char>> {
    match o {
        Some(s) => Some(s@),
        None => None,
    }
}

/// The views of a list of strings, in order.
pub open spec fn str_views(ss: Seq<String>) -> Seq<Seq<char>>
    decreases ss.len(),
{
    if ss.len() == 0 {
        Seq::empty()
    } else {
        seq![ss[0]@] + str_views(ss.drop_first())
    }
}

/// A string list's views are the pointwise views of its elements.
pub proof fn lemma_str_views(ss: Seq<String>)
    ensures
        str_views(ss).len() == ss.len(),
        forall|i: int| 0 <= i < ss.len() ==> str_views(ss)[i] == ss[i]@,
    decreases ss.len(),
{
    if ss.len() > 0 {
        lemma_str_views(ss.drop_first());
    }
}

impl View for InteractionInput {
    type V = InteractionInputV;

    open spec fn view(&self) -> InteractionInputV {
        InteractionInputV {
            interaction_id: self.interaction_id@,
            interaction_type: self.interaction_type@,
            token: self.token@,
            guild_id: opt_str_view(self.guild_id),
            channel_id: self.channel_id@,
            user_id: self.user_id@,
            command_name: opt_str_view(self.command_name),
            subcommand: opt_str_view(self.subcommand),
        }
    }
}

/// Mathematical model of an upstream event.
#[verifier::ext_equal]
pub enum UpstreamEventV {
    GuildCreate { guild_id: Seq<char>, guild: Option<JsonVal> },
    GuildDelete { guild_id: Seq<char>, unavailable: bool },
    MemberAdd { guild_id: Seq<char>, user_id: Seq<char>, username: Seq<char>, discriminator: u16 },
    MemberRemove { guild_id: Seq<char>, user_id: Seq<char> },
    MemberUpdate {
        guild_id: Seq<char>,
        user_id: Seq<char>,
        roles: Seq<Seq<char>>,
        nick: Option<Seq<char>>,
    },
    InteractionCreate(InteractionInputV),
    Heartbeat,
    HeartbeatAck,
    Hello,
    InvalidateSession,
    Reconnect,
    Ready,
    Unrecognized,
}

/// One upstream event, as the closed enumeration of kinds the normalizer
/// decides over.
///
/// `GuildCreate::guild` is the full guild object re-encoded as a structured
/// value, or `None` when that structural encoding failed (normalization then
/// substitutes an explicit null and the caller records a diagnostic).
/// `Unrecognized` stands for every upstream kind outside this enumeration;
/// such events are intentionally dropped.
#[derive(Debug, Clone, PartialEq, Eq)]
pub enum UpstreamEvent {
    GuildCreate { guild_id: String, guild: Option<JsonValue> },
    GuildDelete { guild_id: String, unavailable: bool },
    MemberAdd { guild_id: String, user_id: String, username: String, discriminator: u16 },
    MemberRemove { guild_id: String, user_id: String },
    MemberUpdate { guild_id: String, user_id: String, roles: Vec<String>, nick: Option<String> },
    InteractionCreate(InteractionInput),
    Heartbeat,
    HeartbeatAck,
    Hello,
    InvalidateSession,
    Reconnect,
    Ready,
    Unrecognized,
}

impl View for UpstreamEvent {
    type V = UpstreamEventV;

    open spec fn view(&self) -> UpstreamEventV {
        match *self {
            UpstreamEvent::GuildCreate { guild_id, guild } => UpstreamEventV::GuildCreate {
                guild_id: guild_id@,
                guild: match guild {
                    Some(g) => Some(g.as_val()),
                    None => None,
                },
            },
            UpstreamEvent::GuildDelete { guild_id, unavailable } => UpstreamEventV::GuildDelete {
                guild_id: guild_id@,
                unavailable,
            },
            UpstreamEvent::MemberAdd { guild_id, user_id, username, discriminator } => {
                UpstreamEventV::MemberAdd {
                    guild_id: guild_id@,
                    user_id: user_id@,
                    username: username@,
                    discriminator,
                }
            },
            UpstreamEvent::MemberRemove { guild_id, user_id } => UpstreamEventV::MemberRemove {
                guild_id: guild_id@,
                user_id: user_id@,
            },
            UpstreamEvent::MemberUpdate { guild_id, user_id, roles, nick } => {
                UpstreamEventV::MemberUpdate {
                    guild_id: guild_id@,
                    user_id: user_id@,
                    roles: str_views(roles@),
                    nick: opt_str_view(nick),
                }
            },
            UpstreamEvent::InteractionCreate(input) => UpstreamEventV::InteractionCreate(input@),
            UpstreamEvent::Heartbeat => UpstreamEventV::Heartbeat,
            UpstreamEvent::HeartbeatAck => UpstreamEventV::HeartbeatAck,
            UpstreamEvent::Hello => UpstreamEventV::Hello,
            UpstreamEvent::InvalidateSession => UpstreamEventV::InvalidateSession,
            UpstreamEvent::Reconnect => UpstreamEventV::Reconnect,
            UpstreamEvent::Ready => UpstreamEventV::Ready,
            UpstreamEvent::Unrecognized => UpstreamEventV::Unrecognized,
        }
    }
}

} // verus!
