//! The wire codec: envelopes to and from structured JSON values.
//!
//! The emitted object shapes are the cross-implementation wire contract: the
//! field names and the use of explicit nulls for absent optional context are
//! exactly what the shared fixture corpus pins down, and an independently
//! maintained consumer validates the same shapes against its own schema.
//! Decoding reads fields by name, so a fixture's field order does not matter;
//! encoding always writes the canonical order.

use vstd::prelude::*;

use crate::envelope::{
    Envelope, EnvelopeV, GatewayEvent, GatewayEventV, InteractionEvent, InteractionEventV,
};
use crate::event::opt_str_view;
use crate::json::{
    clone_json, lemma_obj_val, obj_lookup, obj_val, JsonVal, JsonValue,
};

verus! {

/// An optional string as a JSON value: the string itself, or explicit null.
pub open spec fn opt_str_val(o: Option<Seq<char>>) -> JsonVal {
    match o {
        Some(s) => JsonVal::Str(s),
        None => JsonVal::Null,
    }
}

/// The wire object of a generic envelope.
pub open spec fn spec_gateway_to_json(g: GatewayEventV) -> JsonVal {
    JsonVal::Obj(
        seq![
            ("event_id"@, JsonVal::Str(g.event_id)),
            ("event_type"@, JsonVal::Str(g.event_type)),
            ("shard_id"@, JsonVal::Num(g.shard_id)),
            ("timestamp"@, JsonVal::Num(g.timestamp)),
            ("guild_id"@, opt_str_val(g.guild_id)),
            ("channel_id"@, opt_str_val(g.channel_id)),
            ("user_id"@, opt_str_val(g.user_id)),
            ("data"@, g.data),
        ],
    )
}

/// The wire object of an interaction envelope.
pub open spec fn spec_interaction_to_json(e: InteractionEventV) -> JsonVal {
    JsonVal::Obj(
        seq![
            ("event_id"@, JsonVal::Str(e.event_id)),
            ("shard_id"@, JsonVal::Num(e.shard_id)),
            ("timestamp"@, JsonVal::Num(e.timestamp)),
            ("interaction_id"@, JsonVal::Str(e.interaction_id)),
            ("interaction_token"@, JsonVal::Str(e.interaction_token)),
            ("guild_id"@, opt_str_val(e.guild_id)),
            ("channel_id"@, JsonVal::Str(e.channel_id)),
            ("user_id"@, JsonVal::Str(e.user_id)),
            ("command_name"@, opt_str_val(e.command_name)),
            ("subcommand"@, opt_str_val(e.subcommand)),
            ("data"@, e.data),
        ],
    )
}

/// The wire object of an envelope of either shape.
pub open spec fn spec_envelope_to_json(e: EnvelopeV) -> JsonVal {
    match e {
        EnvelopeV::Generic(g) => spec_gateway_to_json(g),
        EnvelopeV::Interaction(i) => spec_interaction_to_json(i),
    }
}

/// The string carried by `key`, if the field is present and a string.
pub open spec fn str_field(fields: Seq<(Seq<char>, JsonVal)>, key: Seq<char>) -> Option<Seq<char>> {
    match obj_lookup(fields, key) {
        Some(JsonVal::Str(s)) => Some(s),
        _ => None,
    }
}

/// The number carried by `key`, if the field is present and a number.
pub open spec fn num_field(fields: Seq<(Seq<char>, JsonVal)>, key: Seq<char>) -> Option<u64> {
    match obj_lookup(fields, key) {
        Some(JsonVal::Num(n)) => Some(n),
        _ => None,
    }
}

/// The optional string carried by `key`: a string, or an explicit null.
pub open spec fn opt_str_field(fields: Seq<(Seq<char>, JsonVal)>, key: Seq<char>) -> Option<
    Option<Seq<char>>,
> {
    match obj_lookup(fields, key) {
        Some(JsonVal::Str(s)) => Some(Some(s)),
        Some(JsonVal::Null) => Some(None),
        _ => None,
    }
}

/// The generic envelope read back from a wire object, if every mandatory
/// field is present with its wire type.
pub open spec fn spec_gateway_from_json(v: JsonVal) -> Option<GatewayEventV> {
    match v {
        JsonVal::Obj(fields) => {
            if str_field(fields, "event_id"@) is Some && str_field(fields, "event_type"@) is Some
                && num_field(fields, "shard_id"@) is Some && num_field(
                fields,
                "timestamp"@,
            ) is Some && opt_str_field(fields, "guild_id"@) is Some && opt_str_field(
                fields,
                "channel_id"@,
            ) is Some && opt_str_field(fields, "user_id"@) is Some && obj_lookup(
                fields,
                "data"@,
            ) is Some {
                Some(
                    GatewayEventV {
                        event_id: str_field(fields, "event_id"@).unwrap(),
                        event_type: str_field(fields, "event_type"@).unwrap(),
                        shard_id: num_field(fields, "shard_id"@).unwrap(),
                        timestamp: num_field(fields, "timestamp"@).unwrap(),
                        guild_id: opt_str_field(fields, "guild_id"@).unwrap(),
                        channel_id: opt_str_field(fields, "channel_id"@).unwrap(),
                        user_id: opt_str_field(fields, "user_id"@).unwrap(),
                        data: obj_lookup(fields, "data"@).unwrap(),
                    },
                )
            } else {
                None
            }
        },
        _ => None,
    }
}

/// The interaction envelope read back from a wire object, if every mandatory
/// field is present with its wire type.
pub open spec fn spec_interaction_from_json(v: JsonVal) -> Option<InteractionEventV> {
    match v {
        JsonVal::Obj(fields) => {
            if str_field(fields, "event_id"@) is Some && num_field(fields, "shard_id"@) is Some
                && num_field(fields, "timestamp"@) is Some && str_field(
                fields,
                "interaction_id"@,
            ) is Some && str_field(fields, "interaction_token"@) is Some && opt_str_field(
                fields,
                "guild_id"@,
            ) is Some && str_field(fields, "channel_id"@) is Some && str_field(
                fields,
                "user_id"@,
            ) is Some && opt_str_field(fields, "command_name"@) is Some && opt_str_field(
                fields,
                "subcommand"@,
            ) is Some && obj_lookup(fields, "data"@) is Some {
                Some(
                    InteractionEventV {
                        event_id: str_field(fields, "event_id"@).unwrap(),
                        shard_id: num_field(fields, "shard_id"@).unwrap(),
                        timestamp: num_field(fields, "timestamp"@).unwrap(),
                        interaction_id: str_field(fields, "interaction_id"@).unwrap(),
                        interaction_token: str_field(fields, "interaction_token"@).unwrap(),
                        guild_id: opt_str_field(fields, "guild_id"@).unwrap(),
                        channel_id: str_field(fields, "channel_id"@).unwrap(),
                        user_id: str_field(fields, "user_id"@).unwrap(),
                        command_name: opt_str_field(fields, "command_name"@).unwrap(),
                        subcommand: opt_str_field(fields, "subcommand"@).unwrap(),
                        data: obj_lookup(fields, "data"@).unwrap(),
                    },
                )
            } else {
                None
            }
        },
        _ => None,
    }
}

/// Round-trip: decoding the wire object of a generic envelope yields the
/// envelope back, every field exactly as it was.
pub proof fn lemma_gateway_round_trip(g: GatewayEventV)
    ensures
        spec_gateway_from_json(spec_gateway_to_json(g)) == Some(g),
{
    reveal_with_fuel(obj_lookup, 10);
    reveal_strlit("event_id");
    reveal_strlit("event_type");
    reveal_strlit("shard_id");
    reveal_strlit("timestamp");
    reveal_strlit("guild_id");
    reveal_strlit("channel_id");
    reveal_strlit("user_id");
    reveal_strlit("data");
    assert("event_id"@.len() == 8);
    assert("event_type"@.len() == 10);
    assert("shard_id"@.len() == 8);
    assert("timestamp"@.len() == 9);
    assert("guild_id"@.len() == 8);
    assert("channel_id"@.len() == 10);
    assert("user_id"@.len() == 7);
    assert("data"@.len() == 4);
    assert("event_id"@[0] == 'e' && "shard_id"@[0] == 's' && "guild_id"@[0] == 'g');
    assert("event_type"@[0] == 'e' && "channel_id"@[0] == 'c');
    assert("event_id"@ != "shard_id"@);
    assert("event_id"@ != "guild_id"@);
    assert("shard_id"@ != "guild_id"@);
    assert("event_type"@ != "channel_id"@);
    let fields = spec_gateway_to_json(g)->Obj_0;
    assert(obj_lookup(fields, "event_id"@) == Some(JsonVal::Str(g.event_id)));
    assert(obj_lookup(fields, "event_type"@) == Some(JsonVal::Str(g.event_type)));
    assert(obj_lookup(fields, "shard_id"@) == Some(JsonVal::Num(g.shard_id)));
    assert(obj_lookup(fields, "timestamp"@) == Some(JsonVal::Num(g.timestamp)));
    assert(obj_lookup(fields, "guild_id"@) == Some(opt_str_val(g.guild_id)));
    assert(obj_lookup(fields, "channel_id"@) == Some(opt_str_val(g.channel_id)));
    assert(obj_lookup(fields, "user_id"@) == Some(opt_str_val(g.user_id)));
    assert(obj_lookup(fields, "data"@) == Some(g.data));
    assert(spec_gateway_from_json(spec_gateway_to_json(g)).unwrap() =~= g);
}

/// Round-trip: decoding the wire object of an interaction envelope yields the
/// envelope back, every field exactly as it was.
pub proof fn lemma_interaction_round_trip(e: InteractionEventV)
    ensures
        spec_interaction_from_json(spec_interaction_to_json(e)) == Some(e),
{
    reveal_with_fuel(obj_lookup, 13);
    reveal_strlit("event_id");
    reveal_strlit("shard_id");
    reveal_strlit("timestamp");
    reveal_strlit("interaction_id");
    reveal_strlit("interaction_token");
    reveal_strlit("guild_id");
    reveal_strlit("channel_id");
    reveal_strlit("user_id");
    reveal_strlit("command_name");
    reveal_strlit("subcommand");
    reveal_strlit("data");
    assert("event_id"@.len() == 8);
    assert("shard_id"@.len() == 8);
    assert("timestamp"@.len() == 9);
    assert("interaction_id"@.len() == 14);
    assert("interaction_token"@.len() == 17);
    assert("guild_id"@.len() == 8);
    assert("channel_id"@.len() == 10);
    assert("user_id"@.len() == 7);
    assert("command_name"@.len() == 12);
    assert("subcommand"@.len() == 10);
    assert("data"@.len() == 4);
    assert("event_id"@[0] == 'e' && "shard_id"@[0] == 's' && "guild_id"@[0] == 'g');
    assert("channel_id"@[0] == 'c' && "subcommand"@[0] == 's');
    assert("event_id"@ != "shard_id"@);
    assert("event_id"@ != "guild_id"@);
    assert("shard_id"@ != "guild_id"@);
    assert("channel_id"@ != "subcommand"@);
    let fields = spec_interaction_to_json(e)->Obj_0;
    assert(obj_lookup(fields, "event_id"@) == Some(JsonVal::Str(e.event_id)));
    assert(obj_lookup(fields, "shard_id"@) == Some(JsonVal::Num(e.shard_id)));
    assert(obj_lookup(fields, "timestamp"@) == Some(JsonVal::Num(e.timestamp)));
    assert(obj_lookup(fields, "interaction_id"@) == Some(JsonVal::Str(e.interaction_id)));
    assert(obj_lookup(fields, "interaction_token"@) == Some(JsonVal::Str(e.interaction_token)));
    assert(obj_lookup(fields, "guild_id"@) == Some(opt_str_val(e.guild_id)));
    assert(obj_lookup(fields, "channel_id"@) == Some(JsonVal::Str(e.channel_id)));
    assert(obj_lookup(fields, "user_id"@) == Some(JsonVal::Str(e.user_id)));
    assert(obj_lookup(fields, "command_name"@) == Some(opt_str_val(e.command_name)));
    assert(obj_lookup(fields, "subcommand"@) == Some(opt_str_val(e.subcommand)));
    assert(obj_lookup(fields, "data"@) == Some(e.data));
    assert(spec_interaction_from_json(spec_interaction_to_json(e)).unwrap() =~= e);
}

/// An optional string rendered on the wire: the string, or explicit null.
fn opt_string_to_json(o: &Option<String>) -> (r: JsonValue)
    ensures
        r.as_val() == opt_str_val(opt_str_view(*o)),
{
    match o {
        Some(s) => JsonValue::Str(s.clone()),
        None => JsonValue::Null,
    }
}

/// Encodes a generic envelope as its wire object.
pub fn gateway_event_to_json(g: &GatewayEvent) -> (r: JsonValue)
    ensures
        r@ == spec_gateway_to_json(g@),
{
    let mut fields: Vec<(String, JsonValue)> = Vec::new();
    fields.push(("event_id".to_owned(), JsonValue::Str(g.event_id.clone())));
    fields.push(("event_type".to_owned(), JsonValue::Str(g.event_type.clone())));
    fields.push(("shard_id".to_owned(), JsonValue::Num(g.shard_id)));
    fields.push(("timestamp".to_owned(), JsonValue::Num(g.timestamp)));
    fields.push(("guild_id".to_owned(), opt_string_to_json(&g.guild_id)));
    fields.push(("channel_id".to_owned(), opt_string_to_json(&g.channel_id)));
    fields.push(("user_id".to_owned(), opt_string_to_json(&g.user_id)));
    fields.push(("data".to_owned(), clone_json(&g.data)));
    proof {
        lemma_obj_val(fields@);
        assert(obj_val(fields@) =~= seq![
            ("event_id"@, JsonVal::Str(g@.event_id)),
            ("event_type"@, JsonVal::Str(g@.event_type)),
            ("shard_id"@, JsonVal::Num(g@.shard_id)),
            ("timestamp"@, JsonVal::Num(g@.timestamp)),
            ("guild_id"@, opt_str_val(g@.guild_id)),
            ("channel_id"@, opt_str_val(g@.channel_id)),
            ("user_id"@, opt_str_val(g@.user_id)),
            ("data"@, g@.data),
        ]);
    }
    JsonValue::Obj(fields)
}

/// Encodes an interaction envelope as its wire object.
pub fn interaction_event_to_json(e: &InteractionEvent) -> (r: JsonValue)
    ensures
        r@ == spec_interaction_to_json(e@),
{
    let mut fields: Vec<(String, JsonValue)> = Vec::new();
    fields.push(("event_id".to_owned(), JsonValue::Str(e.event_id.clone())));
    fields.push(("shard_id".to_owned(), JsonValue::Num(e.shard_id)));
    fields.push(("timestamp".to_owned(), JsonValue::Num(e.timestamp)));
    fields.push(("interaction_id".to_owned(), JsonValue::Str(e.interaction_id.clone())));
    fields.push(("interaction_token".to_owned(), JsonValue::Str(e.interaction_token.clone())));
    fields.push(("guild_id".to_owned(), opt_string_to_json(&e.guild_id)));
    fields.push(("channel_id".to_owned(), JsonValue::Str(e.channel_id.clone())));
    fields.push(("user_id".to_owned(), JsonValue::Str(e.user_id.clone())));
    fields.push(("command_name".to_owned(), opt_string_to_json(&e.command_name)));
    fields.push(("subcommand".to_owned(), opt_string_to_json(&e.subcommand)));
    fields.push(("data".to_owned(), clone_json(&e.data)));
    proof {
        lemma_obj_val(fields@);
        assert(obj_val(fields@) =~= seq![
            ("event_id"@, JsonVal::Str(e@.event_id)),
            ("shard_id"@, JsonVal::Num(e@.shard_id)),
            ("timestamp"@, JsonVal::Num(e@.timestamp)),
            ("interaction_id"@, JsonVal::Str(e@.interaction_id)),
            ("interaction_token"@, JsonVal::Str(e@.interaction_token)),
            ("guild_id"@, opt_str_val(e@.guild_id)),
            ("channel_id"@, JsonVal::Str(e@.channel_id)),
            ("user_id"@, JsonVal::Str(e@.user_id)),
            ("command_name"@, opt_str_val(e@.command_name)),
            ("subcommand"@, opt_str_val(e@.subcommand)),
            ("data"@, e@.data),
        ]);
    }
    JsonValue::Obj(fields)
}

/// Encodes an envelope of either shape as its wire object.
pub fn envelope_to_json(e: &Envelope) -> (r: JsonValue)
    ensures
        r@ == spec_envelope_to_json(e@),
{
    match e {
        Envelope::Generic(g) => gateway_event_to_json(g),
        Envelope::Interaction(i) => interaction_event_to_json(i),
    }
}

/// The first field named `key`, if any.
fn obj_get<'a>(fields: &'a Vec<(String, JsonValue)>, key: &String) -> (r: Option<&'a JsonValue>)
    ensures
        (match r {
            Some(v) => Some(v.as_val()),
            None => None,
        }) == obj_lookup(obj_val(fields@), key@),
{
    proof {
        lemma_obj_val(fields@);
        assert(obj_val(fields@).skip(0) =~= obj_val(fields@));
    }
    let mut i: usize = 0;
    while i < fields.len()
        invariant
            i <= fields@.len(),
            obj_val(fields@).len() == fields@.len(),
            forall|j: int| 0 <= j < fields@.len() ==> obj_val(fields@)[j] == (
                fields@[j].0@,
                fields@[j].1.as_val(),
            ),
            obj_lookup(obj_val(fields@), key@) == obj_lookup(
                obj_val(fields@).skip(i as int),
                key@,
            ),
        decreases fields@.len() - i,
    {
        let found = fields[i].0.eq(key);
        proof {
            let rest = obj_val(fields@).skip(i as int);
            assert(rest[0] == obj_val(fields@)[i as int]);
            assert(rest.drop_first() =~= obj_val(fields@).skip(i + 1));
        }
        if found {
            return Some(&fields[i].1);
        }
        i += 1;
    }
    proof {
        assert(obj_val(fields@).skip(i as int) =~= Seq::empty());
    }
    None
}

/// Reads the string field named `key`.
fn get_str_field(fields: &Vec<(String, JsonValue)>, key: &String) -> (r: Option<String>)
    ensures
        opt_str_view(r) == str_field(obj_val(fields@), key@),
{
    match obj_get(fields, key) {
        Some(JsonValue::Str(s)) => Some(s.clone()),
        _ => None,
    }
}

/// Reads the numeric field named `key`.
fn get_num_field(fields: &Vec<(String, JsonValue)>, key: &String) -> (r: Option<u64>)
    ensures
        r == num_field(obj_val(fields@), key@),
{
    match obj_get(fields, key) {
        Some(JsonValue::Num(n)) => Some(*n),
        _ => None,
    }
}

/// Reads the optional-string field named `key` (a string or explicit null).
fn get_opt_str_field(fields: &Vec<(String, JsonValue)>, key: &String) -> (r: Option<
    Option<String>,
>)
    ensures
        (match r {
            Some(o) => Some(opt_str_view(o)),
            None => None,
        }) == opt_str_field(obj_val(fields@), key@),
{
    match obj_get(fields, key) {
        Some(JsonValue::Str(s)) => Some(Some(s.clone())),
        Some(JsonValue::Null) => Some(None),
        _ => None,
    }
}

/// Reads the structured field named `key` as a value of its own.
fn get_json_field(fields: &Vec<(String, JsonValue)>, key: &String) -> (r: Option<JsonValue>)
    ensures
        (match r {
            Some(v) => Some(v.as_val()),
            None => None,
        }) == obj_lookup(obj_val(fields@), key@),
{
    match obj_get(fields, key) {
        Some(v) => Some(clone_json(v)),
        None => None,
    }
}

/// Decodes a generic envelope from a wire object; returns `None` exactly when
/// a mandatory field is missing or carries the wrong wire type.
pub fn gateway_event_from_json(v: &JsonValue) -> (r: Option<GatewayEvent>)
    ensures
        (match r {
            Some(g) => Some(g@),
            None => None,
        }) == spec_gateway_from_json(v@),
{
    match v {
        JsonValue::Obj(fields) => {
            let event_id = get_str_field(fields, &"event_id".to_owned());
            let event_type = get_str_field(fields, &"event_type".to_owned());
            let shard_id = get_num_field(fields, &"shard_id".to_owned());
            let timestamp = get_num_field(fields, &"timestamp".to_owned());
            let guild_id = get_opt_str_field(fields, &"guild_id".to_owned());
            let channel_id = get_opt_str_field(fields, &"channel_id".to_owned());
            let user_id = get_opt_str_field(fields, &"user_id".to_owned());
            let data = get_json_field(fields, &"data".to_owned());
            if event_id.is_none() || event_type.is_none() || shard_id.is_none()
                || timestamp.is_none() || guild_id.is_none() || channel_id.is_none()
                || user_id.is_none() || data.is_none() {
                return None;
            }
            Some(GatewayEvent {
                event_id: event_id.unwrap(),
                event_type: event_type.unwrap(),
                shard_id: shard_id.unwrap(),
                timestamp: timestamp.unwrap(),
                guild_id: guild_id.unwrap(),
                channel_id: channel_id.unwrap(),
                user_id: user_id.unwrap(),
                data: data.unwrap(),
            })
        },
        _ => None,
    }
}

/// Decodes an interaction envelope from a wire object; returns `None` exactly
/// when a mandatory field is missing or carries the wrong wire type.
pub fn interaction_event_from_json(v: &JsonValue) -> (r: Option<InteractionEvent>)
    ensures
        (match r {
            Some(e) => Some(e@),
            None => None,
        }) == spec_interaction_from_json(v@),
{
    match v {
        JsonValue::Obj(fields) => {
            let event_id = get_str_field(fields, &"event_id".to_owned());
            let shard_id = get_num_field(fields, &"shard_id".to_owned());
            let timestamp = get_num_field(fields, &"timestamp".to_owned());
            let interaction_id = get_str_field(fields, &"interaction_id".to_owned());
            let interaction_token = get_str_field(fields, &"interaction_token".to_owned());
            let guild_id = get_opt_str_field(fields, &"guild_id".to_owned());
            let channel_id = get_str_field(fields, &"channel_id".to_owned());
            let user_id = get_str_field(fields, &"user_id".to_owned());
            let command_name = get_opt_str_field(fields, &"command_name".to_owned());
            let subcommand = get_opt_str_field(fields, &"subcommand".to_owned());
            let data = get_json_field(fields, &"data".to_owned());
            if event_id.is_none() || shard_id.is_none() || timestamp.is_none()
                || interaction_id.is_none() || interaction_token.is_none() || guild_id.is_none()
                || channel_id.is_none() || user_id.is_none() || command_name.is_none()
                || subcommand.is_none() || data.is_none() {
                return None;
            }
            Some(InteractionEvent {
                event_id: event_id.unwrap(),
                shard_id: shard_id.unwrap(),
                timestamp: timestamp.unwrap(),
                interaction_id: interaction_id.unwrap(),
                interaction_token: interaction_token.unwrap(),
                guild_id: guild_id.unwrap(),
                channel_id: channel_id.unwrap(),
                user_id: user_id.unwrap(),
                command_name: command_name.unwrap(),
                subcommand: subcommand.unwrap(),
                data: data.unwrap(),
            })
        },
        _ => None,
    }
}

} // verus!
