use kovi::api::{ApiReturn, EchoSource, SendApi};
use kovi::correlator::{Correlator, ReplyOutcome};
use kovi::access::{AccessControl, AccessControlMode, AccessList};
use kovi::dispatch::{Dispatch, DispatchStep};
use kovi::event::{InternalEvent, MsgSendFromKoviEvent, MsgSendFromKoviType};
use kovi::plugin::PluginEntry;
use serde_json::Value;

const SEND_TAG: u64 = 11;

fn json(text: &str) -> Value {
    serde_json::from_str(text).unwrap()
}

fn reply(echo: &str, status: &str) -> String {
    format!(r#"{{"status":"{status}","retcode":0,"data":{{"message_id":42}},"echo":"{echo}"}}"#)
}

#[test]
fn reply_reaches_originating_caller() {
    let mut c: Correlator<u32> = Correlator::new();
    let api = SendApi::new("send_group_msg", json(r#"{"group_id":100,"message":"hi"}"#), "E2".to_string());
    assert!(c.register(api, Some(1)).is_none());
    assert_eq!(c.len(), 1);
    match c.accept_frame(&reply("E2", "ok")) {
        ReplyOutcome::Delivered(d) => {
            assert_eq!(d.sink, Some(1));
            assert_eq!(d.request.action, "send_group_msg");
            let ok = d.result.ok().unwrap();
            assert_eq!(ok.data.get("message_id").and_then(Value::as_i64), Some(42));
        }
        _ => panic!("not delivered"),
    }
    assert_eq!(c.len(), 0);
}

#[test]
fn replies_out_of_order_go_to_their_callers() {
    let mut c: Correlator<&'static str> = Correlator::new();
    c.register(SendApi::new("a", json("{}"), "E3".to_string()), Some("caller3"));
    c.register(SendApi::new("b", json("{}"), "E4".to_string()), Some("caller4"));
    match c.accept_frame(&reply("E4", "ok")) {
        ReplyOutcome::Delivered(d) => {
            assert_eq!(d.sink, Some("caller4"));
            assert_eq!(d.result.unwrap().echo, "E4");
        }
        _ => panic!("E4 not delivered"),
    }
    match c.accept_frame(&reply("E3", "ok")) {
        ReplyOutcome::Delivered(d) => {
            assert_eq!(d.sink, Some("caller3"));
            assert_eq!(d.request.action, "a");
        }
        _ => panic!("E3 not delivered"),
    }
}

#[test]
fn unknown_echo_is_not_delivered() {
    let mut c: Correlator<u32> = Correlator::new();
    c.register(SendApi::new("a", json("{}"), "E1".to_string()), Some(1));
    match c.accept_frame(&reply("E9", "ok")) {
        ReplyOutcome::UnknownEcho(r) => assert_eq!(r.echo, "E9"),
        _ => panic!("ghost delivery"),
    }
    assert!(c.contains(&"E1".to_string()));
    assert!(matches!(c.accept_frame("not json"), ReplyOutcome::Malformed));
    assert!(matches!(c.accept_frame(r#"{"status":"ok"}"#), ReplyOutcome::Malformed));
    assert_eq!(c.len(), 1);
}

#[test]
fn failed_status_is_delivered_as_error() {
    let mut c: Correlator<u32> = Correlator::new();
    c.register(SendApi::new("a", json("{}"), "E1".to_string()), None);
    match c.accept_frame(&reply("E1", "failed")) {
        ReplyOutcome::Delivered(d) => {
            assert_eq!(d.sink, None);
            assert_eq!(d.result.unwrap_err().status, "failed");
        }
        _ => panic!("not delivered"),
    }
}

#[test]
fn status_is_compared_case_insensitively() {
    let r = ApiReturn::decode(&reply("E1", "Ok")).unwrap();
    assert!(r.into_result().is_ok());
    let r = ApiReturn::decode(&reply("E1", "OK")).unwrap();
    assert!(r.into_result().is_ok());
    let r = ApiReturn::decode(&reply("E1", "okay")).unwrap();
    assert!(r.into_result().is_err());
    let r = ApiReturn::decode(&reply("E1", "async")).unwrap();
    assert!(r.into_result_folded("ok").is_ok());
}

#[test]
fn reregistering_an_echo_displaces_the_old_call() {
    let mut c: Correlator<u32> = Correlator::new();
    c.register(SendApi::new("a", json("{}"), "E1".to_string()), Some(1));
    let old = c.register(SendApi::new("b", json("{}"), "E1".to_string()), Some(2)).unwrap();
    assert_eq!(old.sink, Some(1));
    assert_eq!(c.len(), 1);
}

#[test]
fn request_frame_round_trips_its_echo() {
    let mut echoes = EchoSource::new();
    let e0 = echoes.fresh().unwrap();
    let e1 = echoes.fresh().unwrap();
    assert_eq!(e0, "0");
    assert_eq!(e1, "1");
    let api = SendApi::new("send_msg", json(r#"{"message":"a \"quoted\" text"}"#), e1.clone());
    let frame = api.to_frame();
    let parsed: Value = serde_json::from_str(&frame).unwrap();
    assert_eq!(parsed["action"], Value::String("send_msg".to_string()));
    assert_eq!(parsed["echo"], Value::String("1".to_string()));
    assert_eq!(parsed["params"]["message"], Value::String("a \"quoted\" text".to_string()));

    let mut c: Correlator<u8> = Correlator::new();
    c.register(api, Some(9));
    let back = format!(r#"{{"status":"ok","retcode":0,"data":null,"echo":{}}}"#, parsed["echo"]);
    match c.accept_frame(&back) {
        ReplyOutcome::Delivered(d) => {
            assert_eq!(d.request.echo, "1");
            assert_eq!(d.request.action, "send_msg");
            assert_eq!(d.sink, Some(9));
        }
        _ => panic!("round trip lost"),
    }
}

#[test]
fn echo_source_counts_in_decimal() {
    let mut echoes = EchoSource { next: 1234 };
    assert_eq!(echoes.fresh().unwrap(), "1234");
    assert_eq!(echoes.next, 1235);
    let mut last = EchoSource { next: u64::MAX };
    assert!(last.fresh().is_none());
}

#[test]
fn send_group_msg_seen_by_caller_and_send_listener() {
    let mut c: Correlator<&'static str> = Correlator::new();
    let api = SendApi::new("send_group_msg", json(r#"{"group_id":100,"message":"hi"}"#), "E2".to_string());
    c.send(api, Some("plugin A"));
    let d = match c.accept_frame(r#"{"status":"ok","retcode":0,"data":{"message_id":42},"echo":"E2"}"#) {
        ReplyOutcome::Delivered(d) => d,
        _ => panic!("not delivered"),
    };
    assert_eq!(d.sink, Some("plugin A"));
    let to_caller = d.result.clone().unwrap();
    assert_eq!(to_caller.data["message_id"], Value::from(42));

    let access = AccessControl { enabled: false, mode: AccessControlMode::WhiteList, list: AccessList::new() };
    let mut observer = PluginEntry::new("observer".to_string(), access);
    observer.on(SEND_TAG);
    let plugins = vec![observer];
    let event = InternalEvent::OneBotApiEvent((d.request, d.result));
    let mut dispatch = Dispatch::new();
    let mut seen = None;
    loop {
        match dispatch.step(&plugins, &None) {
            DispatchStep::Decode(tag) => {
                seen = MsgSendFromKoviEvent::de(&event);
                dispatch.record(tag, seen.is_some());
            }
            DispatchStep::Run { plugin, listener } => assert_eq!((plugin, listener), (0, 0)),
            DispatchStep::Done => break,
        }
    }
    let seen = seen.unwrap();
    assert_eq!(seen.event_type, MsgSendFromKoviType::SendGroupMsg);
    assert_eq!(seen.send_api.echo, "E2");
    assert_eq!(seen.res.unwrap().data["message_id"], Value::from(42));
}
