use kovi::connect::{event_frame_action, EventFrameAction, Frame, Host, Server};
use kovi::correlator::{ApiFrameAction, Correlator, ReplyOutcome};
use kovi::event::{
    AdminMsgEvent, GroupMsgEvent, InternalEvent, MsgEvent, MsgSendFromServerEvent, NoticeEvent,
    PostType, PrivateMsgEvent, RequestEvent,
};
use kovi::access::MessageOrigin;
use kovi::SendApi;
use serde_json::Value;

fn server(host: Host, secure: bool, token: &str) -> Server {
    Server { host, port: 8081, access_token: token.to_string(), secure }
}

#[test]
fn endpoint_urls() {
    assert_eq!(server(Host::IpV4("127.0.0.1".to_string()), false, "").url("event"), "ws://127.0.0.1:8081/event");
    assert_eq!(server(Host::IpV6("::1".to_string()), true, "").url("api"), "wss://[::1]:8081/api");
    let mut s = server(Host::Domain("bot.example".to_string()), false, "");
    s.port = 0;
    assert_eq!(s.url("api"), "ws://bot.example:0/api");
    s.port = 65535;
    assert_eq!(s.url("event"), "ws://bot.example:65535/event");
}

#[test]
fn bearer_header_only_with_token() {
    assert_eq!(server(Host::IpV4("1.2.3.4".to_string()), false, "").auth_header(), None);
    assert_eq!(
        server(Host::IpV4("1.2.3.4".to_string()), false, "SECRET-REDACTED").auth_header(),
        Some("Bearer SECRET-REDACTED".to_string())
    );
}

#[test]
fn event_frames() {
    match event_frame_action(Frame::Text("{}".to_string())) {
        EventFrameAction::Forward(InternalEvent::OneBotEvent(t)) => assert_eq!(t, "{}"),
        _ => panic!("not forwarded"),
    }
    assert!(matches!(event_frame_action(Frame::Close), EventFrameAction::Fail));
    assert!(matches!(event_frame_action(Frame::Other), EventFrameAction::Ignore));
}

#[test]
fn api_close_frame_is_a_failure() {
    let mut c: Correlator<u8> = Correlator::new();
    let frame = c.send(SendApi::new("get_status", serde_json::from_str("{}").unwrap(), "7".to_string()), Some(3));
    let parsed: Value = serde_json::from_str(&frame).unwrap();
    assert_eq!(parsed["echo"], Value::String("7".to_string()));
    assert_eq!(parsed["action"], Value::String("get_status".to_string()));
    assert!(matches!(c.accept(Frame::Close), ApiFrameAction::Fail));
    assert!(matches!(c.accept(Frame::Other), ApiFrameAction::Ignore));
    assert_eq!(c.len(), 1);
    match c.accept(Frame::Text(r#"{"status":"ok","retcode":0,"data":{},"echo":"7"}"#.to_string())) {
        ApiFrameAction::Reply(ReplyOutcome::Delivered(d)) => assert_eq!(d.sink, Some(3)),
        _ => panic!("not delivered"),
    }
}

const GROUP: &str = r#"{"time":1700000001,"self_id":10001,"post_type":"message","message_type":"group","sub_type":"normal","message":[{"type":"text","data":{"text":"hi"}}],"message_id":77,"group_id":100,"user_id":5,"anonymous":null,"raw_message":"hi","font":0,"sender":{"user_id":5,"nickname":"alice","role":"member"}}"#;

#[test]
fn group_message_decodes() {
    let e = GroupMsgEvent::de(&InternalEvent::OneBotEvent(GROUP.to_string())).unwrap();
    assert_eq!(e.group_id, 100);
    assert_eq!(e.user_id, 5);
    assert_eq!(e.message_id, 77);
    assert_eq!(e.post_type, PostType::Message);
    assert_eq!(e.raw_message, "hi");
    assert_eq!(e.sender.nickname.as_deref(), Some("alice"));
    assert_eq!(e.get_sender_nickname(), "alice");
    assert!(e.anonymous.is_none());
    assert_eq!(e.get("font").and_then(Value::as_i64), Some(0));
}

#[test]
fn message_origin_of_events() {
    let o = MessageOrigin::of_event(&InternalEvent::OneBotEvent(GROUP.to_string()));
    assert_eq!(o, Some(MessageOrigin { group_id: Some(100), sender_id: 5 }));
    assert_eq!(MessageOrigin::of_event(&InternalEvent::OneBotEvent("[".to_string())), None);
}

#[test]
fn private_message_is_not_a_group_message() {
    assert!(GroupMsgEvent::de(&InternalEvent::OneBotEvent(private_text())).is_none());
    let notice = r#"{"time":1,"self_id":2,"post_type":"notice","notice_type":"x"}"#;
    assert!(GroupMsgEvent::de(&InternalEvent::OneBotEvent(notice.to_string())).is_none());
    assert!(NoticeEvent::de(&InternalEvent::OneBotEvent(notice.to_string())).is_some());
    assert!(NoticeEvent::de(&InternalEvent::OneBotEvent(GROUP.to_string())).is_none());
}

#[test]
fn group_reply_request() {
    let e = GroupMsgEvent::de(&InternalEvent::OneBotEvent(GROUP.to_string())).unwrap();
    let r = e.reply_builder(Value::String("pong".to_string()), false, "9".to_string());
    assert_eq!(r.action, "send_msg");
    assert_eq!(r.echo, "9");
    assert_eq!(r.params["message_type"], Value::String("group".to_string()));
    assert_eq!(r.params["group_id"], Value::from(100));
    assert_eq!(r.params["message"], Value::String("pong".to_string()));
    assert_eq!(r.params["auto_escape"], Value::Bool(false));
    assert_eq!(r.params.as_object().map(|m| m.len()), Some(4));
}

fn private_text() -> String {
    GROUP.replace(r#""group_id":100,"#, "").replace(r#""message_type":"group""#, r#""message_type":"private""#)
}

#[test]
fn message_umbrella_and_variants() {
    let group = InternalEvent::OneBotEvent(GROUP.to_string());
    let private = InternalEvent::OneBotEvent(private_text());
    let m = MsgEvent::de(&group).unwrap();
    assert!(m.is_group());
    assert_eq!(m.group_id, Some(100));
    assert_eq!(m.origin(), MessageOrigin { group_id: Some(100), sender_id: 5 });
    let p = MsgEvent::de(&private).unwrap();
    assert!(!p.is_group());
    assert_eq!(p.message_type, "private");
    assert!(PrivateMsgEvent::de(&private).is_some());
    assert!(PrivateMsgEvent::de(&group).is_none());
    assert_eq!(AdminMsgEvent::de(&group, 5).unwrap().event.user_id, 5);
    assert!(AdminMsgEvent::de(&group, 6).is_none());
}

#[test]
fn message_sent_mirror() {
    let sent = GROUP.replace(r#""post_type":"message""#, r#""post_type":"message_sent""#);
    let e = MsgSendFromServerEvent::de(&InternalEvent::OneBotEvent(sent.clone())).unwrap();
    assert_eq!(e.event.post_type, PostType::MessageSent);
    assert!(MsgEvent::de(&InternalEvent::OneBotEvent(sent)).is_none());
    assert!(MsgSendFromServerEvent::de(&InternalEvent::OneBotEvent(GROUP.to_string())).is_none());
}

#[test]
fn message_with_wide_id_is_refused() {
    let wide = GROUP.replace(r#""message_id":77"#, r#""message_id":4294967296"#);
    assert!(MsgEvent::de(&InternalEvent::OneBotEvent(wide)).is_none());
    let no_sender = GROUP.replace(r#","sender":{"user_id":5,"nickname":"alice","role":"member"}"#, "");
    assert!(MsgEvent::de(&InternalEvent::OneBotEvent(no_sender)).is_none());
}

#[test]
fn request_event_decodes() {
    let text = r#"{"time":3,"self_id":4,"post_type":"request","request_type":"friend","user_id":8,"comment":"hi","flag":"f"}"#;
    let r = RequestEvent::de(&InternalEvent::OneBotEvent(text.to_string())).unwrap();
    assert_eq!((r.time, r.self_id, r.request_type.as_str()), (3, 4, "friend"));
    assert_eq!(r.get("flag"), Some(&Value::String("f".to_string())));
    let notice = r#"{"time":3,"self_id":4,"post_type":"notice","request_type":"friend"}"#;
    assert!(RequestEvent::de(&InternalEvent::OneBotEvent(notice.to_string())).is_none());
}

#[test]
fn group_msg_from_private_message_names_the_missing_group() {
    let m = MsgEvent::de(&InternalEvent::OneBotEvent(private_text())).unwrap();
    match GroupMsgEvent::from_msg(m) {
        Err(kovi::event::EventBuildError::ParseError(e)) => assert_eq!(e, "group_id unreachable"),
        Ok(_) => panic!("a private message became a group message"),
    }
    let m = MsgEvent::de(&InternalEvent::OneBotEvent(GROUP.to_string())).unwrap();
    let g = GroupMsgEvent::from_msg(m).unwrap();
    assert_eq!(g.group_id, 100);
    assert_eq!(g.sender.user_id, 5);
}

#[test]
fn request_frame_text_is_exact() {
    let api = SendApi::new("a\"b\u{1}\n", serde_json::from_str("{}").unwrap(), "e\\".to_string());
    assert_eq!(api.to_frame(), r#"{"action":"a\"b\u0001\n","params":{},"echo":"e\\"}"#);
}
