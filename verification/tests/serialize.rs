//! Normalizer behaviour and fixture conformance.
//!
//! The JSON fixtures below are the canonical wire examples, one per forwarded
//! event kind. They are parsed with serde_json and handed to the library's
//! decoder, so a drift between the envelope types and the wire contract shows
//! up here.

use gateway_events::codec::{
    envelope_to_json, gateway_event_from_json, gateway_event_to_json, interaction_event_from_json,
    interaction_event_to_json,
};
use gateway_events::envelope::Envelope;
use gateway_events::event::{InteractionInput, UpstreamEvent};
use gateway_events::json::JsonValue;
use gateway_events::normalize::{serialize_event, serialize_event_with};

/// Converts parsed JSON into the library's value tree. The corpus holds no
/// floating-point numbers, no negative numbers, and nothing above u64.
fn to_json_value(v: &serde_json::Value) -> JsonValue {
    match v {
        serde_json::Value::Null => JsonValue::Null,
        serde_json::Value::Bool(b) => JsonValue::Bool(*b),
        serde_json::Value::Number(n) => JsonValue::Num(n.as_u64().expect("corpus uses u64")),
        serde_json::Value::String(s) => JsonValue::Str(s.clone()),
        serde_json::Value::Array(items) => {
            JsonValue::Arr(items.iter().map(to_json_value).collect())
        }
        serde_json::Value::Object(fields) => {
            JsonValue::Obj(fields.iter().map(|(k, v)| (k.clone(), to_json_value(v))).collect())
        }
    }
}

fn fixture(name: &str) -> JsonValue {
    let text = match name {
        "guild-join" => {
            r#"{
                "event_id": "0a0a0a0a-1111-4222-8333-444444444444",
                "event_type": "guild.join",
                "shard_id": 0,
                "timestamp": 1700000000000,
                "guild_id": "123456789012345678",
                "channel_id": null,
                "user_id": null,
                "data": {"id": "123456789012345678", "name": "Fixture Guild"}
            }"#
        }
        "guild-leave" => {
            r#"{
                "event_id": "0b0b0b0b-1111-4222-8333-444444444444",
                "event_type": "guild.leave",
                "shard_id": 0,
                "timestamp": 1700000000001,
                "guild_id": "123456789012345678",
                "channel_id": null,
                "user_id": null,
                "data": {"unavailable": false}
            }"#
        }
        "member-join" => {
            r#"{
                "event_id": "0c0c0c0c-1111-4222-8333-444444444444",
                "event_type": "member.join",
                "shard_id": 1,
                "timestamp": 1700000000002,
                "guild_id": "123456789012345678",
                "channel_id": null,
                "user_id": "876543210987654321",
                "data": {"username": "fixture-user", "discriminator": 1234}
            }"#
        }
        "member-leave" => {
            r#"{
                "event_id": "0d0d0d0d-1111-4222-8333-444444444444",
                "event_type": "member.leave",
                "shard_id": 1,
                "timestamp": 1700000000003,
                "guild_id": "123456789012345678",
                "channel_id": null,
                "user_id": "876543210987654321",
                "data": null
            }"#
        }
        "member-update" => {
            r#"{
                "event_id": "0e0e0e0e-1111-4222-8333-444444444444",
                "event_type": "member.update",
                "shard_id": 1,
                "timestamp": 1700000000004,
                "guild_id": "123456789012345678",
                "channel_id": null,
                "user_id": "876543210987654321",
                "data": {"roles": ["111", "222"], "nick": "fixture-nick"}
            }"#
        }
        "interaction-create" => {
            r#"{
                "event_id": "0f0f0f0f-1111-4222-8333-444444444444",
                "shard_id": 2,
                "timestamp": 1700000000005,
                "interaction_id": "555555555555555555",
                "interaction_token": "fixture-token",
                "guild_id": "123456789012345678",
                "channel_id": "999999999999999999",
                "user_id": "876543210987654321",
                "command_name": "ping",
                "subcommand": null,
                "data": {
                    "interaction_id": "555555555555555555",
                    "interaction_type": "ApplicationCommand",
                    "interaction_token": "fixture-token"
                }
            }"#
        }
        other => panic!("unknown fixture {}", other),
    };
    let parsed: serde_json::Value = serde_json::from_str(text)
        .unwrap_or_else(|e| panic!("Failed to parse fixture {}: {}", name, e));
    to_json_value(&parsed)
}

fn obj_field<'a>(v: &'a JsonValue, key: &str) -> Option<&'a JsonValue> {
    match v {
        JsonValue::Obj(fields) => {
            fields.iter().find(|(name, _)| name == key).map(|(_, value)| value)
        }
        _ => None,
    }
}

#[test]
fn test_serialize_returns_none_for_heartbeat() {
    let event = UpstreamEvent::HeartbeatAck;
    assert!(serialize_event(&event, 0, 0).is_none());
}

#[test]
fn guild_join_fixture_deserializes() {
    let event = gateway_event_from_json(&fixture("guild-join")).expect("fixture must decode");
    assert_eq!(event.event_type, "guild.join");
    assert!(event.guild_id.is_some());
}

#[test]
fn guild_leave_fixture_deserializes() {
    let event = gateway_event_from_json(&fixture("guild-leave")).expect("fixture must decode");
    assert_eq!(event.event_type, "guild.leave");
}

#[test]
fn member_join_fixture_deserializes() {
    let event = gateway_event_from_json(&fixture("member-join")).expect("fixture must decode");
    assert_eq!(event.event_type, "member.join");
    assert!(event.user_id.is_some());
}

#[test]
fn member_leave_fixture_deserializes() {
    let event = gateway_event_from_json(&fixture("member-leave")).expect("fixture must decode");
    assert_eq!(event.event_type, "member.leave");
}

#[test]
fn member_update_fixture_deserializes() {
    let event = gateway_event_from_json(&fixture("member-update")).expect("fixture must decode");
    assert_eq!(event.event_type, "member.update");
}

#[test]
fn interaction_create_fixture_deserializes() {
    let event =
        interaction_event_from_json(&fixture("interaction-create")).expect("fixture must decode");
    assert_eq!(event.interaction_token, "fixture-token");
    let data = &event.data;
    assert!(
        obj_field(data, "interaction_token").is_some(),
        "BB60-20: must use interaction_token"
    );
    assert!(
        obj_field(data, "token").is_none(),
        "BB60-20: must NOT have bare 'token' field"
    );
}

#[test]
fn all_fixtures_round_trip_through_serde() {
    let generic_fixtures = [
        "guild-join",
        "guild-leave",
        "member-join",
        "member-leave",
        "member-update",
    ];
    for name in generic_fixtures {
        let event = gateway_event_from_json(&fixture(name))
            .unwrap_or_else(|| panic!("Fixture {} failed envelope deserialization", name));
        let json = gateway_event_to_json(&event);
        let again = gateway_event_from_json(&json)
            .unwrap_or_else(|| panic!("Round-trip of {} failed", name));
        assert_eq!(event, again, "Round-trip of {} changed the envelope", name);
    }
    let event = interaction_event_from_json(&fixture("interaction-create"))
        .expect("Fixture interaction-create failed envelope deserialization");
    let json = interaction_event_to_json(&event);
    let again =
        interaction_event_from_json(&json).expect("Round-trip of interaction-create failed");
    assert_eq!(event, again, "Round-trip of interaction-create changed the envelope");
}

#[test]
fn drop_set_yields_no_envelope_for_any_shard() {
    let dropped = [
        UpstreamEvent::Heartbeat,
        UpstreamEvent::HeartbeatAck,
        UpstreamEvent::Hello,
        UpstreamEvent::InvalidateSession,
        UpstreamEvent::Reconnect,
        UpstreamEvent::Ready,
        UpstreamEvent::Unrecognized,
    ];
    for shard_id in [0u64, 7, u64::MAX] {
        for event in &dropped {
            assert!(serialize_event(event, shard_id, 1700000000000).is_none());
        }
    }
}

#[test]
fn member_leave_field_presence() {
    let event = UpstreamEvent::MemberRemove {
        guild_id: "G".to_string(),
        user_id: "U".to_string(),
    };
    let envelope = serialize_event(&event, 3, 1700000000000).expect("member removal is forwarded");
    match envelope {
        Envelope::Generic(g) => {
            assert_eq!(g.event_type, "member.leave");
            assert!(g.guild_id.is_some());
            assert!(g.user_id.is_some());
            assert!(g.channel_id.is_none());
            assert_eq!(g.data, JsonValue::Null);
        }
        Envelope::Interaction(_) => panic!("member removal must use the generic shape"),
    }
}

#[test]
fn event_ids_differ_between_calls_on_identical_input() {
    let event = UpstreamEvent::GuildDelete {
        guild_id: "G".to_string(),
        unavailable: false,
    };
    let first = serialize_event(&event, 1, 42).expect("guild deletion is forwarded");
    let second = serialize_event(&event, 1, 42).expect("guild deletion is forwarded");
    let (a, b) = match (first, second) {
        (Envelope::Generic(a), Envelope::Generic(b)) => (a, b),
        _ => panic!("guild deletion must use the generic shape"),
    };
    assert_eq!(a.event_id.len(), 36);
    assert_eq!(b.event_id.len(), 36);
    assert_ne!(a.event_id, b.event_id);
}

#[test]
fn guild_join_scenario() {
    let event = UpstreamEvent::GuildCreate {
        guild_id: "G1".to_string(),
        guild: Some(JsonValue::Obj(vec![(
            "id".to_string(),
            JsonValue::Str("G1".to_string()),
        )])),
    };
    let envelope = serialize_event(&event, 2, 1700000000000).expect("guild creation is forwarded");
    match envelope {
        Envelope::Generic(g) => {
            assert_eq!(g.event_type, "guild.join");
            assert_eq!(g.guild_id.as_deref(), Some("G1"));
            assert_eq!(g.channel_id, None);
            assert_eq!(g.user_id, None);
            assert_eq!(g.shard_id, 2);
        }
        Envelope::Interaction(_) => panic!("guild creation must use the generic shape"),
    }
}

#[test]
fn guild_join_substitutes_null_when_payload_encoding_failed() {
    let event = UpstreamEvent::GuildCreate {
        guild_id: "G1".to_string(),
        guild: None,
    };
    let envelope = serialize_event(&event, 2, 1700000000000).expect("guild creation is forwarded");
    match envelope {
        Envelope::Generic(g) => {
            assert_eq!(g.event_type, "guild.join");
            assert_eq!(g.data, JsonValue::Null);
        }
        Envelope::Interaction(_) => panic!("guild creation must use the generic shape"),
    }
}

#[test]
fn member_update_scenario() {
    let event = UpstreamEvent::MemberUpdate {
        guild_id: "G2".to_string(),
        user_id: "U3".to_string(),
        roles: vec!["R1".to_string(), "R2".to_string()],
        nick: Some("Nick".to_string()),
    };
    let envelope = serialize_event(&event, 0, 1700000000000).expect("member update is forwarded");
    match envelope {
        Envelope::Generic(g) => {
            assert_eq!(g.event_type, "member.update");
            assert_eq!(g.guild_id.as_deref(), Some("G2"));
            assert_eq!(g.user_id.as_deref(), Some("U3"));
            let expected = JsonValue::Obj(vec![
                (
                    "roles".to_string(),
                    JsonValue::Arr(vec![
                        JsonValue::Str("R1".to_string()),
                        JsonValue::Str("R2".to_string()),
                    ]),
                ),
                ("nick".to_string(), JsonValue::Str("Nick".to_string())),
            ]);
            assert_eq!(g.data, expected);
        }
        Envelope::Interaction(_) => panic!("member update must use the generic shape"),
    }
}

#[test]
fn interaction_create_scenario() {
    let event = UpstreamEvent::InteractionCreate(InteractionInput {
        interaction_id: "I9".to_string(),
        interaction_type: "ApplicationCommand".to_string(),
        token: "tok-secret".to_string(),
        guild_id: Some("G5".to_string()),
        channel_id: "C4".to_string(),
        user_id: "U7".to_string(),
        command_name: Some("ping".to_string()),
        subcommand: None,
    });
    let envelope = serialize_event(&event, 4, 1700000000000).expect("interactions are forwarded");
    match envelope {
        Envelope::Interaction(e) => {
            assert_eq!(e.channel_id, "C4");
            assert_eq!(e.user_id, "U7");
            assert_eq!(e.guild_id.as_deref(), Some("G5"));
            assert_eq!(e.interaction_id, "I9");
            assert_eq!(
                obj_field(&e.data, "interaction_token"),
                Some(&JsonValue::Str("tok-secret".to_string()))
            );
            assert!(obj_field(&e.data, "token").is_none());
        }
        Envelope::Generic(_) => panic!("interactions must use the interaction shape"),
    }
}

#[test]
fn serialize_event_with_uses_the_given_identity() {
    let event = UpstreamEvent::GuildDelete {
        guild_id: "G9".to_string(),
        unavailable: true,
    };
    let envelope = serialize_event_with(&event, 5, "fixed-id".to_string(), 77)
        .expect("guild deletion is forwarded");
    match envelope {
        Envelope::Generic(g) => {
            assert_eq!(g.event_id, "fixed-id");
            assert_eq!(g.timestamp, 77);
            assert_eq!(g.shard_id, 5);
            let expected =
                JsonValue::Obj(vec![("unavailable".to_string(), JsonValue::Bool(true))]);
            assert_eq!(g.data, expected);
        }
        Envelope::Interaction(_) => panic!("guild deletion must use the generic shape"),
    }
}

#[test]
fn member_join_data_holds_username_and_discriminator() {
    let event = UpstreamEvent::MemberAdd {
        guild_id: "G".to_string(),
        user_id: "U".to_string(),
        username: "someone".to_string(),
        discriminator: 42,
    };
    let envelope = serialize_event(&event, 0, 0).expect("member addition is forwarded");
    match envelope {
        Envelope::Generic(g) => {
            assert_eq!(g.event_type, "member.join");
            let expected = JsonValue::Obj(vec![
                ("username".to_string(), JsonValue::Str("someone".to_string())),
                ("discriminator".to_string(), JsonValue::Num(42)),
            ]);
            assert_eq!(g.data, expected);
        }
        Envelope::Interaction(_) => panic!("member addition must use the generic shape"),
    }
}

#[test]
fn encoding_writes_the_canonical_field_names() {
    let event = UpstreamEvent::MemberRemove {
        guild_id: "G".to_string(),
        user_id: "U".to_string(),
    };
    let envelope = serialize_event_with(&event, 1, "id-1".to_string(), 9)
        .expect("member removal is forwarded");
    let json = envelope_to_json(&envelope);
    let expected = JsonValue::Obj(vec![
        ("event_id".to_string(), JsonValue::Str("id-1".to_string())),
        ("event_type".to_string(), JsonValue::Str("member.leave".to_string())),
        ("shard_id".to_string(), JsonValue::Num(1)),
        ("timestamp".to_string(), JsonValue::Num(9)),
        ("guild_id".to_string(), JsonValue::Str("G".to_string())),
        ("channel_id".to_string(), JsonValue::Null),
        ("user_id".to_string(), JsonValue::Str("U".to_string())),
        ("data".to_string(), JsonValue::Null),
    ]);
    assert_eq!(json, expected);
}

#[test]
fn decoding_tolerates_field_order_and_unknown_fields() {
    let text = r#"{
        "extra": true,
        "data": null,
        "user_id": null,
        "channel_id": null,
        "guild_id": "G",
        "timestamp": 3,
        "shard_id": 2,
        "event_type": "guild.leave",
        "event_id": "x"
    }"#;
    let parsed: serde_json::Value = serde_json::from_str(text).expect("valid JSON");
    let event = gateway_event_from_json(&to_json_value(&parsed)).expect("must decode");
    assert_eq!(event.event_id, "x");
    assert_eq!(event.shard_id, 2);
    assert_eq!(event.guild_id.as_deref(), Some("G"));
}

#[test]
fn decoding_rejects_missing_or_mistyped_fields() {
    // Not an object at all.
    assert!(gateway_event_from_json(&JsonValue::Null).is_none());
    // A mandatory field is missing.
    let missing = JsonValue::Obj(vec![(
        "event_id".to_string(),
        JsonValue::Str("x".to_string()),
    )]);
    assert!(gateway_event_from_json(&missing).is_none());
    // A field carries the wrong wire type.
    let mut wrong = fixture("guild-leave");
    if let JsonValue::Obj(fields) = &mut wrong {
        for field in fields.iter_mut() {
            if field.0 == "shard_id" {
                field.1 = JsonValue::Str("2".to_string());
            }
        }
    }
    assert!(gateway_event_from_json(&wrong).is_none());
    assert!(interaction_event_from_json(&JsonValue::Arr(Vec::new())).is_none());
}
