use std::collections::HashMap;

use fcm::MessageBuilder;
use fcm::Priority;

fn parsed(b: &fcm::MessageV2) -> serde_json::Value {
    serde_json::from_str(&b.to_json()).expect("wire text must be valid JSON")
}

#[test]
fn defaults_omit_everything_unset() {
    let builder = MessageBuilder::new("api_key", "device_token");
    let message = builder.finalize();
    let v = parsed(&message);
    let top = v.as_object().unwrap();
    assert_eq!(top.len(), 1);
    let body = top.get("message").unwrap().as_object().unwrap();
    assert_eq!(body.len(), 2);
    assert_eq!(body.get("token").unwrap().as_str().unwrap(), "device_token");
    let android = body.get("android").unwrap().as_object().unwrap();
    assert_eq!(android.len(), 1);
    assert_eq!(android.get("direct_boot_ok").unwrap().as_bool().unwrap(), false);
}

#[test]
fn set_fields_appear_under_their_schema_names() {
    let mut builder = MessageBuilder::new("api_key", "ignored_when_token_set");
    builder.token("tok1");
    builder.topic("news");
    builder.condition("'a' in topics");
    builder.collapse_key("group7");
    builder.priority(Priority::High);
    builder.time_to_live("3600s");
    builder.restricted_package_name("com.example.app");
    builder.dry_run(true);
    let mut map = HashMap::new();
    map.insert("k".to_string(), "v".to_string());
    builder.data(&map).unwrap();
    let message = builder.finalize();
    let v = parsed(&message);
    assert_eq!(v.get("validate_only").unwrap().as_bool().unwrap(), true);
    let body = v.get("message").unwrap();
    assert_eq!(body.get("token").unwrap().as_str().unwrap(), "tok1");
    assert_eq!(body.get("topic").unwrap().as_str().unwrap(), "news");
    assert_eq!(body.get("condition").unwrap().as_str().unwrap(), "'a' in topics");
    let android = body.get("android").unwrap();
    assert_eq!(android.get("collapse_key").unwrap().as_str().unwrap(), "group7");
    assert_eq!(android.get("priority").unwrap().as_str().unwrap(), "high");
    assert_eq!(android.get("ttl").unwrap().as_str().unwrap(), "3600s");
    assert_eq!(
        android.get("restricted_package_name").unwrap().as_str().unwrap(),
        "com.example.app"
    );
    assert_eq!(android.get("direct_boot_ok").unwrap().as_bool().unwrap(), false);
    let data = android.get("data").unwrap().as_object().unwrap();
    assert_eq!(data.get("k").unwrap().as_str().unwrap(), "v");
}

#[test]
fn normal_priority_spells_normal() {
    let mut builder = MessageBuilder::new("api_key", "t");
    builder.priority(Priority::Normal);
    let v = parsed(&builder.finalize());
    let android = v.get("message").unwrap().get("android").unwrap();
    assert_eq!(android.get("priority").unwrap().as_str().unwrap(), "normal");
}

#[test]
fn explicit_token_wins_over_to() {
    let mut builder = MessageBuilder::new("api_key", "legacy_to");
    builder.token("explicit");
    let v = parsed(&builder.finalize());
    assert_eq!(
        v.get("message").unwrap().get("token").unwrap().as_str().unwrap(),
        "explicit"
    );
}

#[test]
fn string_values_round_trip_through_escaping() {
    let tricky = "a\"b\\c\nd\re\tf\u{1}g";
    let mut builder = MessageBuilder::new("api_key", "t");
    builder.topic(tricky);
    builder.collapse_key("plain");
    let v = parsed(&builder.finalize());
    assert_eq!(
        v.get("message").unwrap().get("topic").unwrap().as_str().unwrap(),
        tricky
    );
}

#[test]
fn data_rejecting_value_leaves_builder_unaffected() {
    let mut builder = MessageBuilder::new("api_key", "t");
    builder.collapse_key("kept");
    let mut bad = HashMap::new();
    bad.insert((1u8, 2u8), 3u8);
    assert!(builder.data(&bad).is_err());
    builder.topic("still_usable");
    let v = parsed(&builder.finalize());
    let body = v.get("message").unwrap();
    assert_eq!(body.get("topic").unwrap().as_str().unwrap(), "still_usable");
    let android = body.get("android").unwrap().as_object().unwrap();
    assert_eq!(android.get("collapse_key").unwrap().as_str().unwrap(), "kept");
    assert!(android.get("data").is_none());
}

#[test]
fn data_replaces_earlier_data() {
    let mut builder = MessageBuilder::new("api_key", "t");
    let mut first = HashMap::new();
    first.insert("a".to_string(), 1u32);
    builder.data(&first).unwrap();
    let mut second = HashMap::new();
    second.insert("b".to_string(), 2u32);
    builder.data(&second).unwrap();
    let v = parsed(&builder.finalize());
    let data = v
        .get("message").unwrap()
        .get("android").unwrap()
        .get("data").unwrap()
        .as_object().unwrap();
    assert!(data.get("a").is_none());
    assert_eq!(data.get("b").unwrap().as_u64().unwrap(), 2);
}

#[test]
fn legacy_options_are_recorded_but_not_emitted() {
    let ids = vec!["id1".to_string(), "id2".to_string()];
    let mut builder = MessageBuilder::new_multi("api_key", &ids);
    builder.content_available(true);
    builder.delay_while_idle(true);
    builder.mutable_content(true);
    assert_eq!(builder.registration_ids.as_ref().unwrap().len(), 2);
    let v = parsed(&builder.finalize());
    let text = v.to_string();
    assert!(!text.contains("registration_ids"));
    assert!(!text.contains("content_available"));
    assert!(!text.contains("delay_while_idle"));
    assert!(!text.contains("mutable_content"));
    let body = v.get("message").unwrap().as_object().unwrap();
    assert!(body.get("token").is_none());
}

#[test]
fn registration_ids_setter_replaces_the_list() {
    let ids = vec!["id1".to_string()];
    let mut builder = MessageBuilder::new("api_key", "t");
    builder.registration_ids(&ids);
    assert_eq!(builder.registration_ids.as_ref().unwrap(), &ids);
}

#[test]
fn notification_reaches_the_wire() {
    let mut builder = MessageBuilder::new("api_key", "t");
    builder.notification(fcm::NotificationV2 {
        title: Some("Hey".to_string()),
        body: Some("Catch up later?".to_string()),
        image: None,
    });
    let recorded = builder.notification.as_ref().unwrap();
    assert_eq!(recorded.title.as_deref(), Some("Hey"));
    assert_eq!(recorded.body.as_deref(), Some("Catch up later?"));
    assert_eq!(recorded.image, None);
    let v = parsed(&builder.finalize());
    let block = v.get("message").unwrap().get("notification").unwrap().as_object().unwrap();
    assert_eq!(block.len(), 2);
    assert_eq!(block.get("title").unwrap().as_str().unwrap(), "Hey");
    assert_eq!(block.get("body").unwrap().as_str().unwrap(), "Catch up later?");
    assert!(block.get("image").is_none());
}

#[test]
fn unset_notification_is_absent_from_the_wire() {
    let builder = MessageBuilder::new("api_key", "t");
    let v = parsed(&builder.finalize());
    assert!(v.get("message").unwrap().get("notification").is_none());
}

#[test]
fn apns_config_serializes_its_fields() {
    let config = fcm::ApnsConfig {
        headers: Some("{\"apns-priority\":\"10\"}".to_string()),
        payload: None,
        fcm_options: Some(fcm::ApnsFcmOptions {
            analytics_label: Some("label1".to_string()),
            image: None,
        }),
    };
    let v: serde_json::Value = serde_json::from_str(&config.to_json()).unwrap();
    let obj = v.as_object().unwrap();
    assert_eq!(obj.len(), 2);
    assert_eq!(
        obj.get("headers").unwrap().get("apns-priority").unwrap().as_str().unwrap(),
        "10"
    );
    let options = obj.get("fcm_options").unwrap().as_object().unwrap();
    assert_eq!(options.len(), 1);
    assert_eq!(options.get("analytics_label").unwrap().as_str().unwrap(), "label1");
}
