use kovi::api::{ApiReturn, EchoSource, SendApi};
use kovi::event::{
    Anonymous, EventBuildError, InternalEvent, LifecycleAction, LifecycleEvent, LoginInfo,
    MsgSendFromKoviEvent, MsgSendFromKoviType, NoticeEvent, PostType, Sender, Sex,
};
use serde_json::Value;

fn json(text: &str) -> Value {
    serde_json::from_str(text).unwrap()
}

#[test]
fn post_type_is_ok() {
    assert_eq!(
        PostType::Message,
        PostType::from_json(&Value::String("message".to_string())).unwrap()
    );
    assert_eq!(
        PostType::Notice,
        PostType::from_json(&Value::String("notice".to_string())).unwrap()
    );
    assert_eq!(
        PostType::Request,
        PostType::from_json(&Value::String("request".to_string())).unwrap()
    );
    assert_eq!(
        PostType::MetaEvent,
        PostType::from_json(&Value::String("meta_event".to_string())).unwrap()
    );
}

#[test]
fn post_type_other_names_are_kept() {
    assert_eq!(PostType::from_name("message_sent".to_string()), PostType::MessageSent);
    assert_eq!(PostType::from_name("weird".to_string()), PostType::Other("weird".to_string()));
    assert_eq!(PostType::from_json(&Value::Bool(true)), None);
}

#[test]
fn lifecycle_connect_event_decodes() {
    let text = r#"{"post_type":"meta_event","meta_event_type":"lifecycle","sub_type":"connect","self_id":10001,"time":1700000000}"#;
    let e = LifecycleEvent::de(&InternalEvent::OneBotEvent(text.to_string())).unwrap();
    assert_eq!(e.self_id, 10001);
    assert_eq!(e.time, 1700000000);
    assert_eq!(e.post_type, PostType::MetaEvent);
    assert_eq!(e.sub_type, LifecycleAction::Connect);
    assert_eq!(e.meta_event_type, "lifecycle");
}

#[test]
fn lifecycle_rejects_other_shapes() {
    let heartbeat = r#"{"post_type":"meta_event","meta_event_type":"heartbeat","sub_type":"connect","self_id":1,"time":2}"#;
    assert!(LifecycleEvent::de(&InternalEvent::OneBotEvent(heartbeat.to_string())).is_none());
    let bad_sub = r#"{"post_type":"meta_event","meta_event_type":"lifecycle","sub_type":"reboot","self_id":1,"time":2}"#;
    assert!(LifecycleEvent::de(&InternalEvent::OneBotEvent(bad_sub.to_string())).is_none());
    assert!(LifecycleEvent::de(&InternalEvent::OneBotEvent("not json".to_string())).is_none());
    assert_eq!(LifecycleAction::from_name("disable"), Some(LifecycleAction::Disable));
    assert_eq!(LifecycleAction::from_name("Enable"), None);
}

#[test]
fn login_info_is_stored_from_reply() {
    let request = LifecycleEvent::login_info_request("E1".to_string());
    assert_eq!(request.action, "get_login_info");
    assert_eq!(request.params, json("{}"));
    let reply = ApiReturn::decode(
        r#"{"status":"ok","retcode":0,"data":{"user_id":10001,"nickname":"Kovi"},"echo":"E1"}"#,
    )
    .unwrap();
    let info = LoginInfo::from_reply(&reply.into_result()).unwrap();
    assert_eq!(info.user_id, 10001);
    assert_eq!(info.nickname, "Kovi");
}

#[test]
fn login_info_absent_on_failure() {
    let reply = ApiReturn::decode(r#"{"status":"failed","retcode":1,"data":{"user_id":1,"nickname":"x"},"echo":"E1"}"#).unwrap();
    assert!(LoginInfo::from_reply(&reply.into_result()).is_none());
}

#[test]
fn send_types_by_action() {
    assert_eq!(MsgSendFromKoviType::try_from_action("send_msg"), Ok(MsgSendFromKoviType::SendMsg));
    assert_eq!(
        MsgSendFromKoviType::try_from_action("send_group_forward_msg"),
        Ok(MsgSendFromKoviType::SendGroupForwardMsg)
    );
    assert_eq!(
        MsgSendFromKoviType::try_from_action("get_login_info"),
        Err("Invalid MsgSendFromKoviType: get_login_info".to_string())
    );
}

#[test]
fn msg_send_event_observes_own_send() {
    let api = SendApi::new("send_group_msg", json(r#"{"group_id":100,"message":"hi"}"#), "E2".to_string());
    let reply = ApiReturn::decode(r#"{"status":"ok","retcode":0,"data":{"message_id":42},"echo":"E2"}"#).unwrap();
    let event = InternalEvent::OneBotApiEvent((api, reply.into_result()));
    let seen = MsgSendFromKoviEvent::de(&event).unwrap();
    assert_eq!(seen.event_type, MsgSendFromKoviType::SendGroupMsg);
    assert_eq!(seen.send_api.echo, "E2");
    let ok = seen.res.unwrap();
    assert_eq!(ok.data.get("message_id").and_then(Value::as_i64), Some(42));

    let other = SendApi::new("get_login_info", json("{}"), "E5".to_string());
    let reply = ApiReturn::decode(r#"{"status":"ok","retcode":0,"data":null,"echo":"E5"}"#).unwrap();
    assert!(MsgSendFromKoviEvent::de(&InternalEvent::OneBotApiEvent((other, Ok(reply)))).is_none());
    assert!(MsgSendFromKoviEvent::de(&InternalEvent::OneBotEvent("{}".to_string())).is_none());
}

#[test]
fn notice_event_builds_and_reports_missing_members() {
    let n = NoticeEvent::new(r#"{"time":5,"self_id":6,"post_type":"notice","notice_type":"group_increase","group_id":9}"#).unwrap();
    assert_eq!(n.time, 5);
    assert_eq!(n.self_id, 6);
    assert_eq!(n.post_type, "notice");
    assert_eq!(n.notice_type, "group_increase");
    assert_eq!(n.get("group_id").and_then(Value::as_i64), Some(9));
    assert!(n.get("user_id").is_none());

    let err = |t: &str| match NoticeEvent::new(t) {
        Err(EventBuildError::ParseError(m)) => m,
        Ok(_) => panic!("built"),
    };
    assert_eq!(err(r#"{"self_id":6,"post_type":"notice","notice_type":"x"}"#), "time");
    assert_eq!(err(r#"{"time":5,"post_type":"notice","notice_type":"x"}"#), "self_id");
    assert_eq!(err(r#"{"time":5,"self_id":6,"notice_type":"x"}"#), "post_type");
    assert_eq!(err(r#"{"time":5,"self_id":6,"post_type":"notice"}"#), "notice_type");
    assert!(!err("{oops").is_empty());
}

#[test]
fn notice_event_member_can_be_changed() {
    let mut n = NoticeEvent::new(r#"{"time":5,"self_id":6,"post_type":"notice","notice_type":"poke","target_id":1}"#).unwrap();
    *n.get_mut("target_id").unwrap() = Value::from(2);
    assert_eq!(n.get("target_id").and_then(Value::as_i64), Some(2));
}

#[test]
fn sender_and_anonymous_decode() {
    let s = Sender::from_json(&json(r#"{"user_id":7,"nickname":"n","sex":"female","age":30,"card":5}"#)).unwrap();
    assert_eq!(s.user_id, 7);
    assert_eq!(s.nickname.as_deref(), Some("n"));
    assert!(matches!(s.sex, Some(Sex::Female)));
    assert_eq!(s.age, Some(30));
    assert_eq!(s.card, None);
    assert!(Sender::from_json(&json(r#"{"nickname":"n"}"#)).is_none());
    let a = Anonymous::from_json(&json(r#"{"id":1,"name":"a","flag":"f"}"#)).unwrap();
    assert_eq!((a.id, a.name.as_str(), a.flag.as_str()), (1, "a", "f"));
    assert!(Anonymous::from_json(&json(r#"{"id":1,"name":"a"}"#)).is_none());
}

#[test]
fn lifecycle_follow_up_asks_for_login_info() {
    let text = r#"{"post_type":"meta_event","meta_event_type":"lifecycle","sub_type":"connect","self_id":10001,"time":1700000000}"#;
    let mut echoes = EchoSource::new();
    let lifecycle = LifecycleEvent::de(&InternalEvent::OneBotEvent(text.to_string()));
    let request = LifecycleEvent::follow_up(&lifecycle, &mut echoes).unwrap();
    assert_eq!(request.action, "get_login_info");
    assert_eq!(request.echo, "0");
    assert_eq!(echoes.next, 1);
    assert!(LifecycleEvent::follow_up(&None, &mut echoes).is_none());
    assert_eq!(echoes.next, 1);
}
