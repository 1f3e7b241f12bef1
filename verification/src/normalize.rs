//! The normalizer: one upstream event in, one canonical envelope or nothing
//! out.
//!
//! [`spec_normalize`] is the full mathematical statement of the mapping: for
//! every upstream kind it fixes whether an envelope is produced, which shape
//! it takes, and the exact contents of every field. [`serialize_event_with`]
//! implements that mapping exactly; [`serialize_event`] additionally draws a
//! fresh event identifier. Dropping an event is the normal path, never an
//! error, and the call itself never fails.

use vstd::prelude::*;

use crate::envelope::{
    Envelope, EnvelopeV, GatewayEvent, GatewayEventV, InteractionEvent, InteractionEventV,
    opt_envelope_view,
};
use crate::event::{InteractionInputV, UpstreamEvent, UpstreamEventV, lemma_str_views,
    opt_str_view, str_views};
use crate::json::{
    arr_val, clone_json, lemma_arr_val, lemma_obj_val, obj_has_key, obj_val, JsonVal, JsonValue,
};

verus! {

/// Whether an upstream event is forwarded to the bus.
pub open spec fn spec_forwarded(ev: UpstreamEventV) -> bool {
    match ev {
        UpstreamEventV::GuildCreate { .. } => true,
        UpstreamEventV::GuildDelete { .. } => true,
        UpstreamEventV::MemberAdd { .. } => true,
        UpstreamEventV::MemberRemove { .. } => true,
        UpstreamEventV::MemberUpdate { .. } => true,
        UpstreamEventV::InteractionCreate(..) => true,
        UpstreamEventV::Heartbeat => false,
        UpstreamEventV::HeartbeatAck => false,
        UpstreamEventV::Hello => false,
        UpstreamEventV::InvalidateSession => false,
        UpstreamEventV::Reconnect => false,
        UpstreamEventV::Ready => false,
        UpstreamEventV::Unrecognized => false,
    }
}

/// Whether an upstream event is intentionally dropped: operationally
/// irrelevant connection-lifecycle kinds, and every unrecognized kind.
pub open spec fn spec_dropped(ev: UpstreamEventV) -> bool {
    ||| ev is Heartbeat
    ||| ev is HeartbeatAck
    ||| ev is Hello
    ||| ev is InvalidateSession
    ||| ev is Reconnect
    ||| ev is Ready
    ||| ev is Unrecognized
}

/// The data payload of a member-update envelope: the role list in source
/// order, and the nickname or null.
pub open spec fn spec_member_update_data(
    roles: Seq<Seq<char>>,
    nick: Option<Seq<char>>,
) -> Seq<(Seq<char>, JsonVal)> {
    seq![
        ("roles"@, JsonVal::Arr(str_vals(roles))),
        ("nick"@, match nick {
            Some(n) => JsonVal::Str(n),
            None => JsonVal::Null,
        }),
    ]
}

/// The JSON string values carrying a list of names, in order.
pub open spec fn str_vals(names: Seq<Seq<char>>) -> Seq<JsonVal>
    decreases names.len(),
{
    if names.len() == 0 {
        Seq::empty()
    } else {
        seq![JsonVal::Str(names[0])] + str_vals(names.drop_first())
    }
}

/// A name list's JSON values are the pointwise string values.
pub proof fn lemma_str_vals(names: Seq<Seq<char>>)
    ensures
        str_vals(names).len() == names.len(),
        forall|i: int| 0 <= i < names.len() ==> str_vals(names)[i] == JsonVal::Str(names[i]),
    decreases names.len(),
{
    if names.len() > 0 {
        lemma_str_vals(names.drop_first());
    }
}

/// The data payload of an interaction envelope. The response token is
/// published under the key `interaction_token`; the shortened key `token`
/// is not part of the wire contract.
pub open spec fn spec_interaction_data(input: InteractionInputV) -> Seq<(Seq<char>, JsonVal)> {
    seq![
        ("interaction_id"@, JsonVal::Str(input.interaction_id)),
        ("interaction_type"@, JsonVal::Str(input.interaction_type)),
        ("interaction_token"@, JsonVal::Str(input.token)),
    ]
}

/// The normalization mapping: the canonical envelope produced for one
/// upstream event, or `None` when the event is dropped.
pub open spec fn spec_normalize(
    ev: UpstreamEventV,
    shard_id: u64,
    event_id: Seq<char>,
    timestamp: u64,
) -> Option<EnvelopeV> {
    match ev {
        UpstreamEventV::GuildCreate { guild_id, guild } => Some(
            EnvelopeV::Generic(GatewayEventV {
                event_id,
                event_type: "guild.join"@,
                shard_id,
                timestamp,
                guild_id: Some(guild_id),
                channel_id: None,
                user_id: None,
                data: match guild {
                    Some(g) => g,
                    None => JsonVal::Null,
                },
            }),
        ),
        UpstreamEventV::GuildDelete { guild_id, unavailable } => Some(
            EnvelopeV::Generic(GatewayEventV {
                event_id,
                event_type: "guild.leave"@,
                shard_id,
                timestamp,
                guild_id: Some(guild_id),
                channel_id: None,
                user_id: None,
                data: JsonVal::Obj(seq![("unavailable"@, JsonVal::Bool(unavailable))]),
            }),
        ),
        UpstreamEventV::MemberAdd { guild_id, user_id, username, discriminator } => Some(
            EnvelopeV::Generic(GatewayEventV {
                event_id,
                event_type: "member.join"@,
                shard_id,
                timestamp,
                guild_id: Some(guild_id),
                channel_id: None,
                user_id: Some(user_id),
                data: JsonVal::Obj(seq![
                    ("username"@, JsonVal::Str(username)),
                    ("discriminator"@, JsonVal::Num(discriminator as u64)),
                ]),
            }),
        ),
        UpstreamEventV::MemberRemove { guild_id, user_id } => Some(
            EnvelopeV::Generic(GatewayEventV {
                event_id,
                event_type: "member.leave"@,
                shard_id,
                timestamp,
                guild_id: Some(guild_id),
                channel_id: None,
                user_id: Some(user_id),
                data: JsonVal::Null,
            }),
        ),
        UpstreamEventV::MemberUpdate { guild_id, user_id, roles, nick } => Some(
            EnvelopeV::Generic(GatewayEventV {
                event_id,
                event_type: "member.update"@,
                shard_id,
                timestamp,
                guild_id: Some(guild_id),
                channel_id: None,
                user_id: Some(user_id),
                data: JsonVal::Obj(spec_member_update_data(roles, nick)),
            }),
        ),
        UpstreamEventV::InteractionCreate(input) => Some(
            EnvelopeV::Interaction(InteractionEventV {
                event_id,
                shard_id,
                timestamp,
                interaction_id: input.interaction_id,
                interaction_token: input.token,
                guild_id: input.guild_id,
                channel_id: input.channel_id,
                user_id: input.user_id,
                command_name: input.command_name,
                subcommand: input.subcommand,
                data: JsonVal::Obj(spec_interaction_data(input)),
            }),
        ),
        UpstreamEventV::Heartbeat => None,
        UpstreamEventV::HeartbeatAck => None,
        UpstreamEventV::Hello => None,
        UpstreamEventV::InvalidateSession => None,
        UpstreamEventV::Reconnect => None,
        UpstreamEventV::Ready => None,
        UpstreamEventV::Unrecognized => None,
    }
}

/// A copy of an optional string.
fn clone_opt_string(o: &Option<String>) -> (r: Option<String>)
    ensures
        opt_str_view(r) == opt_str_view(*o),
{
    match o {
        Some(s) => Some(s.clone()),
        None => None,
    }
}

/// An object with one field.
fn json_obj1(k1: &str, v1: JsonValue) -> (r: JsonValue)
    ensures
        r.as_val() == JsonVal::Obj(seq![(k1@, v1.as_val())]),
{
    let mut fields: Vec<(String, JsonValue)> = Vec::new();
    fields.push((k1.to_owned(), v1));
    proof {
        lemma_obj_val(fields@);
        assert(obj_val(fields@) =~= seq![(k1@, v1.as_val())]);
    }
    JsonValue::Obj(fields)
}

/// An object with two fields, in order.
fn json_obj2(k1: &str, v1: JsonValue, k2: &str, v2: JsonValue) -> (r: JsonValue)
    ensures
        r.as_val() == JsonVal::Obj(seq![(k1@, v1.as_val()), (k2@, v2.as_val())]),
{
    let mut fields: Vec<(String, JsonValue)> = Vec::new();
    fields.push((k1.to_owned(), v1));
    fields.push((k2.to_owned(), v2));
    proof {
        lemma_obj_val(fields@);
        assert(obj_val(fields@) =~= seq![(k1@, v1.as_val()), (k2@, v2.as_val())]);
    }
    JsonValue::Obj(fields)
}

/// An object with three fields, in order.
fn json_obj3(k1: &str, v1: JsonValue, k2: &str, v2: JsonValue, k3: &str, v3: JsonValue) -> (r:
    JsonValue)
    ensures
        r.as_val() == JsonVal::Obj(
            seq![(k1@, v1.as_val()), (k2@, v2.as_val()), (k3@, v3.as_val())],
        ),
{
    let mut fields: Vec<(String, JsonValue)> = Vec::new();
    fields.push((k1.to_owned(), v1));
    fields.push((k2.to_owned(), v2));
    fields.push((k3.to_owned(), v3));
    proof {
        lemma_obj_val(fields@);
        assert(obj_val(fields@) =~= seq![
            (k1@, v1.as_val()),
            (k2@, v2.as_val()),
            (k3@, v3.as_val()),
        ]);
    }
    JsonValue::Obj(fields)
}

/// The role list as a JSON array of strings, source order preserved.
fn roles_to_json(roles: &Vec<String>) -> (r: JsonValue)
    ensures
        r.as_val() == JsonVal::Arr(str_vals(str_views(roles@))),
{
    let mut items: Vec<JsonValue> = Vec::new();
    let mut i: usize = 0;
    while i < roles.len()
        invariant
            i <= roles@.len(),
            items@.len() == i,
            forall|j: int| 0 <= j < i ==> items@[j].as_val() == JsonVal::Str(roles@[j]@),
        decreases roles@.len() - i,
    {
        items.push(JsonValue::Str(roles[i].clone()));
        i += 1;
    }
    proof {
        lemma_str_views(roles@);
        lemma_str_vals(str_views(roles@));
        lemma_arr_val(items@);
        assert(arr_val(items@) =~= str_vals(str_views(roles@)));
    }
    JsonValue::Arr(items)
}

/// Normalizes one upstream event under a caller-supplied envelope identifier
/// and timestamp; implements [`spec_normalize`] exactly.
#[verifier::rlimit(60)]
pub fn serialize_event_with(
    event: &UpstreamEvent,
    shard_id: u64,
    event_id: String,
    timestamp: u64,
) -> (r: Option<Envelope>)
    ensures
        opt_envelope_view(r) == spec_normalize(event@, shard_id, event_id@, timestamp),
{
    let ghost eid = event_id@;
    match event {
        UpstreamEvent::GuildCreate { guild_id, guild } => {
            let data = match guild {
                Some(g) => clone_json(g),
                None => JsonValue::Null,
            };
            let env = Envelope::Generic(GatewayEvent {
                event_id,
                event_type: "guild.join".to_owned(),
                shard_id,
                timestamp,
                guild_id: Some(guild_id.clone()),
                channel_id: None,
                user_id: None,
                data,
            });
            proof {
                assert(env@ =~~= spec_normalize(event@, shard_id, eid, timestamp).unwrap());
            }
            Some(env)
        },
        UpstreamEvent::GuildDelete { guild_id, unavailable } => {
            let data = json_obj1("unavailable", JsonValue::Bool(*unavailable));
            let env = Envelope::Generic(GatewayEvent {
                event_id,
                event_type: "guild.leave".to_owned(),
                shard_id,
                timestamp,
                guild_id: Some(guild_id.clone()),
                channel_id: None,
                user_id: None,
                data,
            });
            proof {
                assert(env@ =~~= spec_normalize(event@, shard_id, eid, timestamp).unwrap());
            }
            Some(env)
        },
        UpstreamEvent::MemberAdd { guild_id, user_id, username, discriminator } => {
            let data = json_obj2(
                "username",
                JsonValue::Str(username.clone()),
                "discriminator",
                JsonValue::Num(*discriminator as u64),
            );
            let env = Envelope::Generic(GatewayEvent {
                event_id,
                event_type: "member.join".to_owned(),
                shard_id,
                timestamp,
                guild_id: Some(guild_id.clone()),
                channel_id: None,
                user_id: Some(user_id.clone()),
                data,
            });
            proof {
                assert(env@ =~~= spec_normalize(event@, shard_id, eid, timestamp).unwrap());
            }
            Some(env)
        },
        UpstreamEvent::MemberRemove { guild_id, user_id } => {
            let env = Envelope::Generic(GatewayEvent {
                event_id,
                event_type: "member.leave".to_owned(),
                shard_id,
                timestamp,
                guild_id: Some(guild_id.clone()),
                channel_id: None,
                user_id: Some(user_id.clone()),
                data: JsonValue::Null,
            });
            proof {
                assert(env@ =~~= spec_normalize(event@, shard_id, eid, timestamp).unwrap());
            }
            Some(env)
        },
        UpstreamEvent::MemberUpdate { guild_id, user_id, roles, nick } => {
            let nick_value = match nick {
                Some(n) => JsonValue::Str(n.clone()),
                None => JsonValue::Null,
            };
            let ghost nv = nick_value.as_val();
            let roles_value = roles_to_json(roles);
            let ghost rv = roles_value.as_val();
            let data = json_obj2("roles", roles_value, "nick", nick_value);
            proof {
                assert(rv == JsonVal::Arr(str_vals(str_views(roles@))));
                assert(nv == (match opt_str_view(*nick) {
                    Some(n) => JsonVal::Str(n),
                    None => JsonVal::Null,
                }));
                assert(data.as_val() == JsonVal::Obj(seq![("roles"@, rv), ("nick"@, nv)]));
                assert(seq![("roles"@, rv), ("nick"@, nv)] == spec_member_update_data(
                    str_views(roles@),
                    opt_str_view(*nick),
                ));
            }
            let env = Envelope::Generic(GatewayEvent {
                event_id,
                event_type: "member.update".to_owned(),
                shard_id,
                timestamp,
                guild_id: Some(guild_id.clone()),
                channel_id: None,
                user_id: Some(user_id.clone()),
                data,
            });
            proof {
                assert(env@ =~~= spec_normalize(event@, shard_id, eid, timestamp).unwrap());
            }
            Some(env)
        },
        UpstreamEvent::InteractionCreate(input) => {
            let data = json_obj3(
                "interaction_id",
                JsonValue::Str(input.interaction_id.clone()),
                "interaction_type",
                JsonValue::Str(input.interaction_type.clone()),
                "interaction_token",
                JsonValue::Str(input.token.clone()),
            );
            let env = Envelope::Interaction(InteractionEvent {
                event_id,
                shard_id,
                timestamp,
                interaction_id: input.interaction_id.clone(),
                interaction_token: input.token.clone(),
                guild_id: clone_opt_string(&input.guild_id),
                channel_id: input.channel_id.clone(),
                user_id: input.user_id.clone(),
                command_name: clone_opt_string(&input.command_name),
                subcommand: clone_opt_string(&input.subcommand),
                data,
            });
            proof {
                assert(env@ =~~= spec_normalize(event@, shard_id, eid, timestamp).unwrap());
            }
            Some(env)
        },
        UpstreamEvent::Heartbeat => None,
        UpstreamEvent::HeartbeatAck => None,
        UpstreamEvent::Hello => None,
        UpstreamEvent::InvalidateSession => None,
        UpstreamEvent::Reconnect => None,
        UpstreamEvent::Ready => None,
        UpstreamEvent::Unrecognized => None,
    }
}

/// Relies on uuid::Uuid::new_v4 and its Display form: a freshly drawn random
/// version-4 identifier rendered as 36 hyphenated lowercase hexadecimal
/// characters. Randomness promises nothing beyond the rendered length.
#[verifier::external_body]
fn fresh_event_id() -> (r: String)
    ensures
        r@.len() == 36,
{
    uuid::Uuid::new_v4().to_string()
}

/// Normalizes one upstream event under a freshly generated envelope
/// identifier.
///
/// The timestamp is the caller's wall-clock capture in milliseconds since the
/// epoch; it is passed through unchanged. The produced envelope is exactly
/// [`spec_normalize`] applied at its own (random) identifier, so nothing but
/// `event_id` varies between calls on the same input.
pub fn serialize_event(event: &UpstreamEvent, shard_id: u64, timestamp: u64) -> (r: Option<
    Envelope,
>)
    ensures
        r is Some <==> spec_forwarded(event@),
        (r matches Some(env) ==> {
            &&& env@.event_id().len() == 36
            &&& Some(env@) == spec_normalize(event@, shard_id, env@.event_id(), timestamp)
        }),
{
    let event_id = fresh_event_id();
    serialize_event_with(event, shard_id, event_id, timestamp)
}

/// Exhaustiveness: every upstream kind has a defined decision. The forwarded
/// kinds and the dropped kinds partition the closed enumeration, and the
/// mapping produces an envelope exactly on the forwarded ones.
pub proof fn lemma_normalize_exhaustive(
    ev: UpstreamEventV,
    shard_id: u64,
    event_id: Seq<char>,
    timestamp: u64,
)
    ensures
        spec_forwarded(ev) <==> !spec_dropped(ev),
        spec_normalize(ev, shard_id, event_id, timestamp) is Some <==> spec_forwarded(ev),
        spec_normalize(ev, shard_id, event_id, timestamp) is None <==> spec_dropped(ev),
{
}

/// Drop set: heartbeat, heartbeat-ack, hello, invalidate-session, reconnect,
/// and ready events yield no envelope, for any shard identifier.
pub proof fn lemma_drop_set(ev: UpstreamEventV, shard_id: u64, event_id: Seq<char>, timestamp: u64)
    requires
        ev is Heartbeat || ev is HeartbeatAck || ev is Hello || ev is InvalidateSession
            || ev is Reconnect || ev is Ready,
    ensures
        spec_normalize(ev, shard_id, event_id, timestamp) is None,
{
}

/// Field presence: a member-removed event always yields a generic envelope
/// whose guild and user contexts are present and whose channel context is
/// absent.
pub proof fn lemma_member_leave_fields(
    guild_id: Seq<char>,
    user_id: Seq<char>,
    shard_id: u64,
    event_id: Seq<char>,
    timestamp: u64,
)
    ensures
        ({
            let r = spec_normalize(
                UpstreamEventV::MemberRemove { guild_id, user_id },
                shard_id,
                event_id,
                timestamp,
            );
            &&& r matches Some(EnvelopeV::Generic(g))
            &&& g.guild_id is Some
            &&& g.user_id is Some
            &&& g.channel_id is None
        }),
{
}

/// Whether `t` is one of the closed set of generic `event_type` wire values.
pub open spec fn spec_known_event_type(t: Seq<char>) -> bool {
    ||| t == "guild.join"@
    ||| t == "guild.leave"@
    ||| t == "member.join"@
    ||| t == "member.leave"@
    ||| t == "member.update"@
}

/// Closed enumeration: every generic envelope the mapping produces carries
/// one of the five documented dotted names; the one remaining forwarded kind,
/// interaction creation, uses the interaction shape.
pub proof fn lemma_event_type_closed(
    ev: UpstreamEventV,
    shard_id: u64,
    event_id: Seq<char>,
    timestamp: u64,
)
    ensures
        (spec_normalize(ev, shard_id, event_id, timestamp) matches Some(EnvelopeV::Generic(g))
            ==> spec_known_event_type(g.event_type)),
        (spec_normalize(ev, shard_id, event_id, timestamp) matches Some(
            EnvelopeV::Interaction(..),
        ) <==> ev is InteractionCreate),
{
}

/// Key naming: the interaction envelope's data object carries the key
/// `interaction_token` and carries no key named exactly `token`.
pub proof fn lemma_interaction_key_naming(input: InteractionInputV)
    ensures
        obj_has_key(spec_interaction_data(input), "interaction_token"@),
        !obj_has_key(spec_interaction_data(input), "token"@),
{
    reveal_strlit("interaction_id");
    reveal_strlit("interaction_type");
    reveal_strlit("interaction_token");
    reveal_strlit("token");
    let d = spec_interaction_data(input);
    assert(d[2].0 == "interaction_token"@);
    assert("interaction_id"@.len() == 14);
    assert("interaction_type"@.len() == 16);
    assert("interaction_token"@.len() == 17);
    assert("token"@.len() == 5);
    assert forall|i: int| 0 <= i < d.len() implies d[i].0 != "token"@ by {
        assert(d[0].0 == "interaction_id"@);
        assert(d[1].0 == "interaction_type"@);
        assert(d[2].0 == "interaction_token"@);
    }
}

} // verus!
