//! Inbound events and their decoders. An event arrives as JSON text from the
//! server, or is made by the runtime after an API call of its own completed.
use vstd::prelude::*;
use vstd::string::*;
use crate::access::MessageOrigin;
use crate::api::{ApiReturn, EchoSource, SendApi};
use crate::json::{
    get_i64, get_member, get_str, is_json_text, json_as_str, json_bool, json_int, json_ints,
    json_keys, json_object, json_string, json_strs, member_mut, member_ref, parse_json,
    value_as_str, json_as_i64, json_is_object, nested_ints, text_ints, text_keys, text_strs, text_nested_ints,
};
use crate::text::{decimal, str_eq};

verus! {

/// An event handed to the dispatcher.
pub enum InternalEvent {
    /// An event pushed by the server, as JSON text.
    OneBotEvent(String),
    /// An API call made by the runtime, with the reply it got.
    OneBotApiEvent((SendApi, Result<ApiReturn, ApiReturn>)),
}

/// The text of a server event; empty for the runtime's own API events.
pub open spec fn server_text(event: InternalEvent) -> Seq<char> {
    match event {
        InternalEvent::OneBotEvent(t) => t@,
        InternalEvent::OneBotApiEvent(_) => Seq::empty(),
    }
}

/// Why an event could not be built.
#[derive(Clone, Debug, PartialEq, Eq)]
pub enum EventBuildError {
    /// The text is not JSON (the parser's message), or the member named is
    /// missing or of the wrong type.
    ParseError(String),
}

#[derive(Debug, Copy, Clone, PartialEq, Eq, Structural)]
pub enum Sex {
    Male,
    Female,
}

/// The sender of a message, as the server describes it.
#[derive(Debug, Clone)]
pub struct Sender {
    pub user_id: i64,
    pub nickname: Option<String>,
    pub card: Option<String>,
    pub sex: Option<Sex>,
    pub age: Option<i32>,
    pub area: Option<String>,
    pub level: Option<String>,
    pub role: Option<String>,
    pub title: Option<String>,
}

/// The anonymous identity a group message was sent under.
#[derive(Debug, Clone)]
pub struct Anonymous {
    pub id: i64,
    pub name: String,
    pub flag: String,
}

/// The `post_type` of an event.
#[derive(Debug, Clone, PartialEq, Eq)]
pub enum PostType {
    Message,
    Notice,
    Request,
    MetaEvent,
    MessageSent,
    Other(String),
}

/// Whether `p` is the post type named `s`.
pub open spec fn post_type_named(s: Seq<char>, p: PostType) -> bool {
    if s == "message"@ {
        p == PostType::Message
    } else if s == "notice"@ {
        p == PostType::Notice
    } else if s == "request"@ {
        p == PostType::Request
    } else if s == "meta_event"@ {
        p == PostType::MetaEvent
    } else if s == "message_sent"@ {
        p == PostType::MessageSent
    } else {
        p matches PostType::Other(o) && o@ == s
    }
}

impl PostType {
    /// The post type that a name stands for; unknown names are kept as `Other`.
    pub fn from_name(s: String) -> (r: PostType)
        ensures
            post_type_named(s@, r),
    {
        if str_eq(s.as_str(), "message") {
            PostType::Message
        } else if str_eq(s.as_str(), "notice") {
            PostType::Notice
        } else if str_eq(s.as_str(), "request") {
            PostType::Request
        } else if str_eq(s.as_str(), "meta_event") {
            PostType::MetaEvent
        } else if str_eq(s.as_str(), "message_sent") {
            PostType::MessageSent
        } else {
            PostType::Other(s)
        }
    }

    /// Reads a post type from a JSON value, which must be a string.
    pub fn from_json(v: &serde_json::Value) -> (r: Option<PostType>)
        ensures
            json_as_str(*v) is None ==> r is None,
            json_as_str(*v) matches Some(s) ==> r matches Some(p) && post_type_named(s, p),
    {
        match value_as_str(v) {
            Some(s) => Some(PostType::from_name(s)),
            None => None,
        }
    }
}

impl Sex {
    /// The sex that a name stands for: `male` or `female`.
    pub fn from_name(s: &str) -> (r: Option<Sex>)
        ensures
            s@ == "male"@ ==> r == Some(Sex::Male),
            s@ == "female"@ ==> r == Some(Sex::Female),
            s@ != "male"@ && s@ != "female"@ ==> r is None,
    {
        proof {
            reveal_strlit("male");
            reveal_strlit("female");
            assert("male"@[0] != "female"@[0]);
        }
        if str_eq(s, "male") {
            Some(Sex::Male)
        } else if str_eq(s, "female") {
            Some(Sex::Female)
        } else {
            None
        }
    }
}

/// The string member `key` of `v`, if there is one, in its own type.
pub open spec fn opt_str(v: serde_json::Value, key: Seq<char>) -> Option<Seq<char>> {
    if json_strs(v).contains_key(key) { Some(json_strs(v)[key]) } else { None }
}

/// Whether an optional string holds exactly an optional text.
pub open spec fn opt_string_is(o: Option<String>, s: Option<Seq<char>>) -> bool {
    match (o, s) {
        (Some(a), Some(b)) => a@ == b,
        (None, None) => true,
        _ => false,
    }
}

fn opt_string(v: &serde_json::Value, key: &str) -> (r: Option<String>)
    ensures
        opt_string_is(r, opt_str(*v, key@)),
{
    get_str(v, key)
}

impl Sender {
    /// Reads a sender out of its JSON object: an integer `user_id`, and the
    /// optional members, each kept only where it has the right type.
    pub fn from_json(v: &serde_json::Value) -> (r: Option<Sender>)
        ensures
            r is Some <==> json_ints(*v).contains_key("user_id"@),
            r matches Some(s) ==> {
                &&& s.user_id == json_ints(*v)["user_id"@]
                &&& opt_string_is(s.nickname, opt_str(*v, "nickname"@))
                &&& opt_string_is(s.card, opt_str(*v, "card"@))
                &&& opt_string_is(s.area, opt_str(*v, "area"@))
                &&& opt_string_is(s.level, opt_str(*v, "level"@))
                &&& opt_string_is(s.role, opt_str(*v, "role"@))
                &&& opt_string_is(s.title, opt_str(*v, "title"@))
                &&& (s.age matches Some(a) ==> json_ints(*v).contains_key("age"@) && json_ints(*v)["age"@] == a as i64)
                &&& (s.age is None ==> !json_ints(*v).contains_key("age"@)
                    || json_ints(*v)["age"@] < i32::MIN || json_ints(*v)["age"@] > i32::MAX)
                &&& (s.sex matches Some(x) ==> opt_str(*v, "sex"@) matches Some(n)
                    && (x == Sex::Male ==> n == "male"@) && (x == Sex::Female ==> n == "female"@))
                &&& (s.sex is None ==> (opt_str(*v, "sex"@) matches Some(n) ==> n != "male"@ && n != "female"@))
            },
    {
        let user_id = match get_i64(v, "user_id") {
            Some(id) => id,
            None => return None,
        };
        let age = match get_i64(v, "age") {
            Some(a) => if i32::MIN as i64 <= a && a <= i32::MAX as i64 { Some(a as i32) } else { None },
            None => None,
        };
        let sex = match get_str(v, "sex") {
            Some(s) => Sex::from_name(s.as_str()),
            None => None,
        };
        Some(Sender {
            user_id,
            nickname: opt_string(v, "nickname"),
            card: opt_string(v, "card"),
            sex,
            age,
            area: opt_string(v, "area"),
            level: opt_string(v, "level"),
            role: opt_string(v, "role"),
            title: opt_string(v, "title"),
        })
    }
}

impl Anonymous {
    /// Reads an anonymous identity: an integer `id`, and `name` and `flag` strings.
    pub fn from_json(v: &serde_json::Value) -> (r: Option<Anonymous>)
        ensures
            r is Some <==> json_ints(*v).contains_key("id"@) && json_strs(*v).contains_key("name"@)
                && json_strs(*v).contains_key("flag"@),
            r matches Some(a) ==> a.id == json_ints(*v)["id"@] && a.name@ == json_strs(*v)["name"@]
                && a.flag@ == json_strs(*v)["flag"@],
    {
        let id = match get_i64(v, "id") {
            Some(x) => x,
            None => return None,
        };
        let name = match get_str(v, "name") {
            Some(x) => x,
            None => return None,
        };
        let flag = match get_str(v, "flag") {
            Some(x) => x,
            None => return None,
        };
        Some(Anonymous { id, name, flag })
    }
}

/// Whether integer and string members make a message origin: `post_type`
/// `message` and an integer `user_id`.
pub open spec fn origin_members(ints: Map<Seq<char>, i64>, strs: Map<Seq<char>, Seq<char>>) -> bool {
    strs.contains_key("post_type"@) && strs["post_type"@] == "message"@ && ints.contains_key("user_id"@)
}

/// The origin that integer members give: the sender, and the group if any.
pub open spec fn origin_is(o: MessageOrigin, ints: Map<Seq<char>, i64>) -> bool {
    &&& o.sender_id == ints["user_id"@]
    &&& ints.contains_key("group_id"@) ==> o.group_id == Some(ints["group_id"@])
    &&& !ints.contains_key("group_id"@) ==> o.group_id is None
}

impl MessageOrigin {
    /// Where a server event came from, when it is a message; the runtime's
    /// own API events and anything that is no message give `None`.
    pub fn of_event(event: &InternalEvent) -> (r: Option<MessageOrigin>)
        ensures
            r is Some <==> event is OneBotEvent && is_json_text(server_text(*event))
                && origin_members(text_ints(server_text(*event)), text_strs(server_text(*event))),
            r matches Some(o) ==> origin_is(o, text_ints(server_text(*event))),
    {
        match event {
            InternalEvent::OneBotEvent(text) => match parse_json(text.as_str()) {
                Ok(v) => MessageOrigin::from_json(&v),
                Err(_) => None,
            },
            InternalEvent::OneBotApiEvent(_) => None,
        }
    }

    /// Where a message event came from: it has `post_type` `message` and an
    /// integer `user_id`; an integer `group_id` makes it a group message.
    pub fn from_json(v: &serde_json::Value) -> (r: Option<MessageOrigin>)
        ensures
            r is Some <==> origin_members(json_ints(*v), json_strs(*v)),
            r matches Some(o) ==> origin_is(o, json_ints(*v)),
    {
        let post_type = match get_str(v, "post_type") {
            Some(p) => p,
            None => return None,
        };
        if !str_eq(post_type.as_str(), "message") {
            return None;
        }
        let sender_id = match get_i64(v, "user_id") {
            Some(id) => id,
            None => return None,
        };
        Some(MessageOrigin { group_id: get_i64(v, "group_id"), sender_id })
    }
}

/// The sub-type of a lifecycle meta event.
#[derive(Debug, Copy, Clone, PartialEq, Eq, Structural)]
pub enum LifecycleAction {
    Enable,
    Disable,
    Connect,
}

impl LifecycleAction {
    /// The action that a lower-case name stands for.
    pub fn from_name(s: &str) -> (r: Option<LifecycleAction>)
        ensures
            s@ == "enable"@ ==> r == Some(LifecycleAction::Enable),
            s@ == "disable"@ ==> r == Some(LifecycleAction::Disable),
            s@ == "connect"@ ==> r == Some(LifecycleAction::Connect),
            s@ != "enable"@ && s@ != "disable"@ && s@ != "connect"@ ==> r is None,
    {
        proof {
            reveal_strlit("enable");
            reveal_strlit("disable");
            reveal_strlit("connect");
            assert("enable"@[0] != "disable"@[0]);
            assert("enable"@[0] != "connect"@[0]);
            assert("disable"@[0] != "connect"@[0]);
        }
        if str_eq(s, "enable") {
            Some(LifecycleAction::Enable)
        } else if str_eq(s, "disable") {
            Some(LifecycleAction::Disable)
        } else if str_eq(s, "connect") {
            Some(LifecycleAction::Connect)
        } else {
            None
        }
    }
}

/// The action a lifecycle name stands for.
pub open spec fn lifecycle_action_named(s: Seq<char>) -> Option<LifecycleAction> {
    if s == "enable"@ {
        Some(LifecycleAction::Enable)
    } else if s == "disable"@ {
        Some(LifecycleAction::Disable)
    } else if s == "connect"@ {
        Some(LifecycleAction::Connect)
    } else {
        None
    }
}

/// A lifecycle meta event: the server's account connected, or was enabled or
/// disabled.
#[derive(Debug, Clone)]
pub struct LifecycleEvent {
    pub meta_event_type: String,
    pub post_type: PostType,
    pub self_id: i64,
    pub time: i64,
    pub sub_type: LifecycleAction,
}

/// Whether integer and string members make a lifecycle event: every member
/// present with its type, a known sub-type, and `meta_event_type` `lifecycle`.
pub open spec fn lifecycle_members(ints: Map<Seq<char>, i64>, strs: Map<Seq<char>, Seq<char>>) -> bool {
    &&& strs.contains_key("meta_event_type"@)
    &&& strs.contains_key("post_type"@)
    &&& ints.contains_key("self_id"@)
    &&& ints.contains_key("time"@)
    &&& strs.contains_key("sub_type"@)
    &&& lifecycle_action_named(strs["sub_type"@]) is Some
    &&& strs["meta_event_type"@] == "lifecycle"@
}

/// The lifecycle event that integer and string members give.
pub open spec fn lifecycle_is(e: LifecycleEvent, ints: Map<Seq<char>, i64>, strs: Map<Seq<char>, Seq<char>>) -> bool {
    &&& e.meta_event_type@ == "lifecycle"@
    &&& post_type_named(strs["post_type"@], e.post_type)
    &&& e.self_id == ints["self_id"@]
    &&& e.time == ints["time"@]
    &&& Some(e.sub_type) == lifecycle_action_named(strs["sub_type"@])
}

/// Whether a JSON value is a lifecycle event.
pub open spec fn is_lifecycle_object(v: serde_json::Value) -> bool {
    lifecycle_members(json_ints(v), json_strs(v))
}

impl LifecycleEvent {
    /// Reads a lifecycle event out of a JSON value.
    pub fn from_json(v: &serde_json::Value) -> (r: Option<LifecycleEvent>)
        ensures
            r is Some <==> is_lifecycle_object(*v),
            r matches Some(e) ==> lifecycle_is(e, json_ints(*v), json_strs(*v)),
    {
        let meta_event_type = match get_str(v, "meta_event_type") {
            Some(x) => x,
            None => return None,
        };
        let post_type = match get_str(v, "post_type") {
            Some(x) => PostType::from_name(x),
            None => return None,
        };
        let self_id = match get_i64(v, "self_id") {
            Some(x) => x,
            None => return None,
        };
        let time = match get_i64(v, "time") {
            Some(x) => x,
            None => return None,
        };
        let sub_type = match get_str(v, "sub_type") {
            Some(x) => match LifecycleAction::from_name(x.as_str()) {
                Some(a) => a,
                None => return None,
            },
            None => return None,
        };
        if !str_eq(meta_event_type.as_str(), "lifecycle") {
            return None;
        }
        Some(LifecycleEvent { meta_event_type, post_type, self_id, time, sub_type })
    }

    /// Decodes a lifecycle event; anything else, including the runtime's own
    /// API events and text that is not JSON, gives `None`.
    pub fn de(event: &InternalEvent) -> (r: Option<LifecycleEvent>)
        ensures
            r is Some <==> event is OneBotEvent && is_json_text(server_text(*event))
                && lifecycle_members(text_ints(server_text(*event)), text_strs(server_text(*event))),
            r matches Some(e) ==> lifecycle_is(e, text_ints(server_text(*event)), text_strs(server_text(*event))),
    {
        match event {
            InternalEvent::OneBotEvent(text) => match parse_json(text.as_str()) {
                Ok(v) => LifecycleEvent::from_json(&v),
                Err(_) => None,
            },
            InternalEvent::OneBotApiEvent(_) => None,
        }
    }

    /// The request that a decoded event calls for: a lifecycle event asks the
    /// server for the bot's identity, under the next echo token; no other
    /// event asks for anything. With the tokens used up, nothing is asked.
    pub fn follow_up(lifecycle: &Option<LifecycleEvent>, echoes: &mut EchoSource) -> (r: Option<SendApi>)
        ensures
            lifecycle is None ==> r is None && *final(echoes) == *old(echoes),
            lifecycle is Some && old(echoes).next < u64::MAX ==> (r matches Some(q)
                && q.action@ == "get_login_info"@ && json_is_object(q.params) && json_keys(q.params).is_empty()
                && q.echo@ == decimal(old(echoes).next as nat) && final(echoes).next == old(echoes).next + 1),
            lifecycle is Some && old(echoes).next == u64::MAX ==> r is None,
    {
        match lifecycle {
            None => None,
            Some(_) => match echoes.fresh() {
                Some(echo) => Some(LifecycleEvent::login_info_request(echo)),
                None => None,
            },
        }
    }

    /// The request the runtime sends on a lifecycle event, to learn the bot's
    /// own identity: `get_login_info` with no parameters.
    pub fn login_info_request(echo: String) -> (r: SendApi)
        ensures
            r.action@ == "get_login_info"@,
            json_is_object(r.params),
            json_keys(r.params).is_empty(),
            r.echo == echo,
    {
        let params = json_object(Vec::new());
        proof {
            let names = Seq::<(String, serde_json::Value)>::empty().map_values(|m: (String, serde_json::Value)| m.0@);
            assert(names =~= Seq::<Seq<char>>::empty());
            assert(names.to_set() =~= Set::<Seq<char>>::empty());
        }
        SendApi::new("get_login_info", params, echo)
    }
}

/// The bot's own identity, from the reply to `get_login_info`.
#[derive(Debug, Clone)]
pub struct LoginInfo {
    pub user_id: i64,
    pub nickname: String,
}

impl LoginInfo {
    /// Reads the identity out of a successful reply's data: an integer
    /// `user_id` and a string `nickname`. A failed reply gives `None`.
    pub fn from_reply(reply: &Result<ApiReturn, ApiReturn>) -> (r: Option<LoginInfo>)
        ensures
            reply is Err ==> r is None,
            reply matches Ok(a) ==> {
                &&& r is Some <==> json_ints(a.data).contains_key("user_id"@)
                    && json_strs(a.data).contains_key("nickname"@)
                &&& r matches Some(i) ==> i.user_id == json_ints(a.data)["user_id"@]
                    && i.nickname@ == json_strs(a.data)["nickname"@]
            },
    {
        match reply {
            Ok(a) => {
                let user_id = match get_i64(&a.data, "user_id") {
                    Some(x) => x,
                    None => return None,
                };
                let nickname = match get_str(&a.data, "nickname") {
                    Some(x) => x,
                    None => return None,
                };
                Some(LoginInfo { user_id, nickname })
            },
            Err(_) => None,
        }
    }
}

/// The six send actions whose completion the runtime reports as an event.
#[derive(Debug, Copy, Clone, PartialEq, Eq, Structural)]
pub enum MsgSendFromKoviType {
    SendMsg,
    SendPrivateMsg,
    SendGroupMsg,
    SendForwardMsg,
    SendPrivateForwardMsg,
    SendGroupForwardMsg,
}

/// The send type an action name stands for.
pub open spec fn send_type_named(s: Seq<char>) -> Option<MsgSendFromKoviType> {
    if s == "send_msg"@ {
        Some(MsgSendFromKoviType::SendMsg)
    } else if s == "send_private_msg"@ {
        Some(MsgSendFromKoviType::SendPrivateMsg)
    } else if s == "send_group_msg"@ {
        Some(MsgSendFromKoviType::SendGroupMsg)
    } else if s == "send_forward_msg"@ {
        Some(MsgSendFromKoviType::SendForwardMsg)
    } else if s == "send_private_forward_msg"@ {
        Some(MsgSendFromKoviType::SendPrivateForwardMsg)
    } else if s == "send_group_forward_msg"@ {
        Some(MsgSendFromKoviType::SendGroupForwardMsg)
    } else {
        None
    }
}

impl MsgSendFromKoviType {
    /// The send type of an action name; any other name is refused with a
    /// message that quotes it.
    pub fn try_from_action(value: &str) -> (r: Result<MsgSendFromKoviType, String>)
        ensures
            send_type_named(value@) matches Some(t) ==> r == Ok::<MsgSendFromKoviType, String>(t),
            send_type_named(value@) is None ==> (r matches Err(e) && e@ == "Invalid MsgSendFromKoviType: "@ + value@),
    {
        if str_eq(value, "send_msg") {
            Ok(MsgSendFromKoviType::SendMsg)
        } else if str_eq(value, "send_private_msg") {
            Ok(MsgSendFromKoviType::SendPrivateMsg)
        } else if str_eq(value, "send_group_msg") {
            Ok(MsgSendFromKoviType::SendGroupMsg)
        } else if str_eq(value, "send_forward_msg") {
            Ok(MsgSendFromKoviType::SendForwardMsg)
        } else if str_eq(value, "send_private_forward_msg") {
            Ok(MsgSendFromKoviType::SendPrivateForwardMsg)
        } else if str_eq(value, "send_group_forward_msg") {
            Ok(MsgSendFromKoviType::SendGroupForwardMsg)
        } else {
            let mut e = String::from_str("Invalid MsgSendFromKoviType: ");
            e.append(value);
            Err(e)
        }
    }
}

/// A message that the runtime itself sent, with the server's reply.
pub struct MsgSendFromKoviEvent {
    pub event_type: MsgSendFromKoviType,
    pub send_api: SendApi,
    pub res: Result<ApiReturn, ApiReturn>,
}

impl MsgSendFromKoviEvent {
    /// Decodes the runtime's own API event when its action is one of the six
    /// send actions; anything else gives `None`.
    pub fn de(event: &InternalEvent) -> (r: Option<MsgSendFromKoviEvent>)
        ensures
            event is OneBotEvent ==> r is None,
            event matches InternalEvent::OneBotApiEvent((api, res)) ==> {
                &&& send_type_named(api.action@) is None ==> r is None
                &&& send_type_named(api.action@) matches Some(t) ==> r matches Some(e)
                    && e.event_type == t && e.send_api == api && e.res == res
            },
    {
        match event {
            InternalEvent::OneBotEvent(_) => None,
            InternalEvent::OneBotApiEvent((api, res)) => {
                match MsgSendFromKoviType::try_from_action(api.action.as_str()) {
                    Ok(t) => {
                        let res2 = match res {
                            Ok(a) => Ok(a.duplicate()),
                            Err(a) => Err(a.duplicate()),
                        };
                        Some(MsgSendFromKoviEvent { event_type: t, send_api: api.duplicate(), res: res2 })
                    },
                    Err(_) => None,
                }
            },
        }
    }
}

/// A notice event: its header members, and the whole JSON value.
pub struct NoticeEvent {
    pub time: i64,
    pub self_id: i64,
    pub post_type: String,
    pub notice_type: String,
    pub original_json: serde_json::Value,
}

/// The error `ParseError` with a given message.
pub open spec fn parse_error_is(e: EventBuildError, msg: Seq<char>) -> bool {
    e matches EventBuildError::ParseError(m) && m@ == msg
}

/// What building a notice from integer and string members gives: the first
/// of `time`, `self_id`, `post_type`, `notice_type` that is missing is named
/// in the error; with all present, the notice holds them.
pub open spec fn notice_outcome(
    ints: Map<Seq<char>, i64>,
    strs: Map<Seq<char>, Seq<char>>,
    r: Result<NoticeEvent, EventBuildError>,
) -> bool {
    if !ints.contains_key("time"@) {
        r matches Err(e) && parse_error_is(e, "time"@)
    } else if !ints.contains_key("self_id"@) {
        r matches Err(e) && parse_error_is(e, "self_id"@)
    } else if !strs.contains_key("post_type"@) {
        r matches Err(e) && parse_error_is(e, "post_type"@)
    } else if !strs.contains_key("notice_type"@) {
        r matches Err(e) && parse_error_is(e, "notice_type"@)
    } else {
        r matches Ok(n) && n.time == ints["time"@] && n.self_id == ints["self_id"@]
            && n.post_type@ == strs["post_type"@] && n.notice_type@ == strs["notice_type"@]
    }
}

/// Whether integer and string members make a notice event.
pub open spec fn notice_members(ints: Map<Seq<char>, i64>, strs: Map<Seq<char>, Seq<char>>) -> bool {
    ints.contains_key("time"@) && ints.contains_key("self_id"@) && strs.contains_key("post_type"@)
        && strs.contains_key("notice_type"@) && strs["post_type"@] == "notice"@
}

impl NoticeEvent {
    /// Builds a notice from JSON text: an integer `time` and `self_id`, and
    /// `post_type` and `notice_type` strings. The first member missing, in that
    /// order, is named in the error.
    pub fn new(msg: &str) -> (r: Result<NoticeEvent, EventBuildError>)
        ensures
            !is_json_text(msg@) ==> r is Err,
            is_json_text(msg@) ==> notice_outcome(text_ints(msg@), text_strs(msg@), r),
    {
        let v = match parse_json(msg) {
            Ok(v) => v,
            Err(e) => return Err(EventBuildError::ParseError(e)),
        };
        NoticeEvent::from_json(v)
    }

    /// Builds a notice from a JSON value, as `new` does from text.
    pub fn from_json(v: serde_json::Value) -> (r: Result<NoticeEvent, EventBuildError>)
        ensures
            notice_outcome(json_ints(v), json_strs(v), r),
            r matches Ok(n) ==> n.original_json == v,
    {
        let time = match get_i64(&v, "time") {
            Some(x) => x,
            None => return Err(EventBuildError::ParseError(String::from_str("time"))),
        };
        let self_id = match get_i64(&v, "self_id") {
            Some(x) => x,
            None => return Err(EventBuildError::ParseError(String::from_str("self_id"))),
        };
        let post_type = match get_str(&v, "post_type") {
            Some(x) => x,
            None => return Err(EventBuildError::ParseError(String::from_str("post_type"))),
        };
        let notice_type = match get_str(&v, "notice_type") {
            Some(x) => x,
            None => return Err(EventBuildError::ParseError(String::from_str("notice_type"))),
        };
        Ok(NoticeEvent { time, self_id, post_type, notice_type, original_json: v })
    }

    /// Decodes a notice from a server event: a buildable notice whose
    /// `post_type` is `notice`; anything else gives `None`.
    pub fn de(event: &InternalEvent) -> (r: Option<NoticeEvent>)
        ensures
            r is Some <==> event is OneBotEvent && is_json_text(server_text(*event))
                && notice_members(text_ints(server_text(*event)), text_strs(server_text(*event))),
            r matches Some(n) ==> n.post_type@ == "notice"@,
    {
        match event {
            InternalEvent::OneBotEvent(text) => match NoticeEvent::new(text.as_str()) {
                Ok(n) => if str_eq(n.post_type.as_str(), "notice") { Some(n) } else { None },
                Err(_) => None,
            },
            InternalEvent::OneBotApiEvent(_) => None,
        }
    }

    /// The member `key` of the original JSON, if present.
    pub fn get(&self, key: &str) -> (r: Option<&serde_json::Value>)
        ensures
            r is Some <==> crate::json::json_keys(self.original_json).contains(key@),
    {
        member_ref(&self.original_json, key)
    }

    /// The member `key` of the original JSON, for change, if present.
    pub fn get_mut(&mut self, key: &str) -> (r: Option<&mut serde_json::Value>)
        ensures
            r is Some <==> crate::json::json_keys(old(self).original_json).contains(key@),
    {
        member_mut(&mut self.original_json, key)
    }
}

/// A message event: one received (`post_type` `message`), or the server's
/// mirror of one the bot sent (`message_sent`).
#[derive(Debug, Clone)]
pub struct MsgEvent {
    pub time: i64,
    pub self_id: i64,
    pub post_type: PostType,
    pub message_type: String,
    pub sub_type: String,
    /// The message content, as the server sent it.
    pub message: serde_json::Value,
    pub message_id: i32,
    /// The group it was sent in; none for a private message.
    pub group_id: Option<i64>,
    pub user_id: i64,
    pub anonymous: Option<Anonymous>,
    pub raw_message: String,
    pub font: i32,
    pub sender: Sender,
    /// The whole event as JSON.
    pub original_json: serde_json::Value,
}

/// Whether members make a message event with `post_type` `post`: the
/// integer and string members with their types, `message_id` and `font` in
/// `i32` range, the `message` member, and a `sender` with an integer `user_id`.
pub open spec fn msg_members(
    keys: Set<Seq<char>>,
    ints: Map<Seq<char>, i64>,
    strs: Map<Seq<char>, Seq<char>>,
    sender_ints: Map<Seq<char>, i64>,
    post: Seq<char>,
) -> bool {
    &&& strs.contains_key("post_type"@) && strs["post_type"@] == post
    &&& ints.contains_key("time"@)
    &&& ints.contains_key("self_id"@)
    &&& strs.contains_key("message_type"@)
    &&& strs.contains_key("sub_type"@)
    &&& keys.contains("message"@)
    &&& ints.contains_key("message_id"@)
    &&& i32::MIN <= ints["message_id"@] <= i32::MAX
    &&& ints.contains_key("user_id"@)
    &&& strs.contains_key("raw_message"@)
    &&& ints.contains_key("font"@)
    &&& i32::MIN <= ints["font"@] <= i32::MAX
    &&& keys.contains("sender"@)
    &&& sender_ints.contains_key("user_id"@)
}

/// Whether a JSON value is a message event with `post_type` `post`.
pub open spec fn is_msg_header(v: serde_json::Value, post: Seq<char>) -> bool {
    msg_members(json_keys(v), json_ints(v), json_strs(v), nested_ints(v, "sender"@), post)
}

/// Whether a text is JSON for a message event with `post_type` `post`.
pub open spec fn is_msg_text(t: Seq<char>, post: Seq<char>) -> bool {
    is_json_text(t) && msg_members(text_keys(t), text_ints(t), text_strs(t), text_nested_ints(t, "sender"@), post)
}

/// The fields of a message event that members give.
pub open spec fn msg_fields(
    e: MsgEvent,
    ints: Map<Seq<char>, i64>,
    strs: Map<Seq<char>, Seq<char>>,
    sender_ints: Map<Seq<char>, i64>,
) -> bool {
    &&& e.time == ints["time"@]
    &&& e.self_id == ints["self_id"@]
    &&& post_type_named(strs["post_type"@], e.post_type)
    &&& e.message_type@ == strs["message_type"@]
    &&& e.sub_type@ == strs["sub_type"@]
    &&& e.message_id as i64 == ints["message_id"@]
    &&& e.user_id == ints["user_id"@]
    &&& e.raw_message@ == strs["raw_message"@]
    &&& e.font as i64 == ints["font"@]
    &&& e.sender.user_id == sender_ints["user_id"@]
    &&& (ints.contains_key("group_id"@) ==> e.group_id == Some(ints["group_id"@]))
    &&& (!ints.contains_key("group_id"@) ==> e.group_id is None)
}

/// The members of a message event that are read from `v`.
pub open spec fn msg_matches(e: MsgEvent, v: serde_json::Value) -> bool {
    e.original_json == v && msg_fields(e, json_ints(v), json_strs(v), nested_ints(v, "sender"@))
}

/// The members of a message event that are read from a JSON text.
pub open spec fn msg_text_matches(e: MsgEvent, t: Seq<char>) -> bool {
    msg_fields(e, text_ints(t), text_strs(t), text_nested_ints(t, "sender"@))
}

fn get_i32(v: &serde_json::Value, key: &str) -> (r: Option<i32>)
    ensures
        r is Some <==> json_ints(*v).contains_key(key@) && i32::MIN <= json_ints(*v)[key@] <= i32::MAX,
        r matches Some(n) ==> n as i64 == json_ints(*v)[key@],
{
    match get_i64(v, key) {
        Some(n) => if i32::MIN as i64 <= n && n <= i32::MAX as i64 { Some(n as i32) } else { None },
        None => None,
    }
}

impl MsgEvent {
    /// Reads a message event whose `post_type` is `post` out of a JSON value.
    pub fn from_json_as(v: serde_json::Value, post: &str) -> (r: Option<MsgEvent>)
        ensures
            r is Some <==> is_msg_header(v, post@),
            r matches Some(e) ==> msg_matches(e, v),
    {
        let post_type = match get_str(&v, "post_type") {
            Some(p) => p,
            None => return None,
        };
        if !str_eq(post_type.as_str(), post) {
            return None;
        }
        let time = match get_i64(&v, "time") { Some(x) => x, None => return None };
        let self_id = match get_i64(&v, "self_id") { Some(x) => x, None => return None };
        let message_type = match get_str(&v, "message_type") { Some(x) => x, None => return None };
        let sub_type = match get_str(&v, "sub_type") { Some(x) => x, None => return None };
        let message = match get_member(&v, "message") { Some(x) => x, None => return None };
        let message_id = match get_i32(&v, "message_id") { Some(x) => x, None => return None };
        let user_id = match get_i64(&v, "user_id") { Some(x) => x, None => return None };
        let raw_message = match get_str(&v, "raw_message") { Some(x) => x, None => return None };
        let font = match get_i32(&v, "font") { Some(x) => x, None => return None };
        let sender = match get_member(&v, "sender") {
            Some(s) => match Sender::from_json(&s) { Some(x) => x, None => return None },
            None => return None,
        };
        let anonymous = match get_member(&v, "anonymous") {
            Some(a) => Anonymous::from_json(&a),
            None => None,
        };
        Some(MsgEvent {
            time,
            self_id,
            post_type: PostType::from_name(post_type),
            message_type,
            sub_type,
            message,
            message_id,
            group_id: get_i64(&v, "group_id"),
            user_id,
            anonymous,
            raw_message,
            font,
            sender,
            original_json: v,
        })
    }

    /// Reads a message event with `post_type` `post` out of JSON text.
    pub fn from_text_as(text: &str, post: &str) -> (r: Option<MsgEvent>)
        ensures
            r is Some <==> is_msg_text(text@, post@),
            r matches Some(e) ==> msg_text_matches(e, text@),
    {
        match parse_json(text) {
            Ok(v) => MsgEvent::from_json_as(v, post),
            Err(_) => None,
        }
    }

    /// Reads a received message (`post_type` `message`) out of a JSON value.
    pub fn from_json(v: serde_json::Value) -> (r: Option<MsgEvent>)
        ensures
            r is Some <==> is_msg_header(v, "message"@),
            r matches Some(e) ==> msg_matches(e, v) && e.post_type == PostType::Message,
    {
        proof {
            reveal_strlit("message");
        }
        MsgEvent::from_json_as(v, "message")
    }

    /// Decodes a received message from a server event; anything else gives `None`.
    pub fn de(event: &InternalEvent) -> (r: Option<MsgEvent>)
        ensures
            r is Some <==> event is OneBotEvent && is_msg_text(server_text(*event), "message"@),
            r matches Some(e) ==> msg_text_matches(e, server_text(*event)) && e.post_type == PostType::Message,
    {
        proof {
            reveal_strlit("message");
        }
        match event {
            InternalEvent::OneBotEvent(text) => MsgEvent::from_text_as(text.as_str(), "message"),
            InternalEvent::OneBotApiEvent(_) => None,
        }
    }

    /// Whether it was sent in a group.
    pub fn is_group(&self) -> (r: bool)
        ensures
            r == self.group_id is Some,
    {
        self.group_id.is_some()
    }

    /// Where it came from, as access control reads it.
    pub fn origin(&self) -> (r: MessageOrigin)
        ensures
            r.group_id == self.group_id,
            r.sender_id == self.user_id,
    {
        MessageOrigin { group_id: self.group_id, sender_id: self.user_id }
    }

    /// The sender's nickname; empty when the server gave none.
    pub fn get_sender_nickname(&self) -> (r: String)
        ensures
            self.sender.nickname matches Some(n) ==> r@ == n@,
            self.sender.nickname is None ==> r@.len() == 0,
    {
        match &self.sender.nickname {
            Some(n) => n.clone(),
            None => String::new(),
        }
    }

    /// The member `key` of the original JSON, if present.
    pub fn get(&self, key: &str) -> (r: Option<&serde_json::Value>)
        ensures
            r is Some <==> json_keys(self.original_json).contains(key@),
    {
        member_ref(&self.original_json, key)
    }
}

/// The server's mirror of a message the bot sent (`post_type` `message_sent`).
pub struct MsgSendFromServerEvent {
    pub event: MsgEvent,
}

impl MsgSendFromServerEvent {
    /// Decodes the mirror of a sent message; anything else gives `None`.
    pub fn de(event: &InternalEvent) -> (r: Option<MsgSendFromServerEvent>)
        ensures
            r is Some <==> event is OneBotEvent && is_msg_text(server_text(*event), "message_sent"@),
            r matches Some(e) ==> e.event.post_type == PostType::MessageSent
                && msg_text_matches(e.event, server_text(*event)),
    {
        proof {
            reveal_strlit("message_sent");
            reveal_strlit("message");
            reveal_strlit("notice");
            reveal_strlit("request");
            reveal_strlit("meta_event");
            assert("message_sent"@.len() != "message"@.len());
            assert("message_sent"@[0] != "notice"@[0]);
            assert("message_sent"@[0] != "request"@[0]);
            assert("message_sent"@[2] != "meta_event"@[2]);
        }
        match event {
            InternalEvent::OneBotEvent(text) => match MsgEvent::from_text_as(text.as_str(), "message_sent") {
                Some(e) => Some(MsgSendFromServerEvent { event: e }),
                None => None,
            },
            InternalEvent::OneBotApiEvent(_) => None,
        }
    }
}

/// A received message sent in private, not in a group.
pub struct PrivateMsgEvent {
    pub event: MsgEvent,
}

impl PrivateMsgEvent {
    /// The message, when it was sent in private.
    pub fn from_msg(e: MsgEvent) -> (r: Option<PrivateMsgEvent>)
        ensures
            e.group_id is Some ==> r is None,
            e.group_id is None ==> (r matches Some(p) && p.event == e),
    {
        if e.group_id.is_some() { None } else { Some(PrivateMsgEvent { event: e }) }
    }

    /// Decodes a private message from a server event; anything else gives `None`.
    pub fn de(event: &InternalEvent) -> (r: Option<PrivateMsgEvent>)
        ensures
            r is Some <==> event is OneBotEvent && is_msg_text(server_text(*event), "message"@)
                && !text_ints(server_text(*event)).contains_key("group_id"@),
            r matches Some(p) ==> msg_text_matches(p.event, server_text(*event)),
    {
        match MsgEvent::de(event) {
            Some(e) => PrivateMsgEvent::from_msg(e),
            None => None,
        }
    }
}

/// A received message whose sender is the bot's main admin.
pub struct AdminMsgEvent {
    pub event: MsgEvent,
}

impl AdminMsgEvent {
    /// The message, when its sender is `main_admin`.
    pub fn from_msg(e: MsgEvent, main_admin: i64) -> (r: Option<AdminMsgEvent>)
        ensures
            e.user_id != main_admin ==> r is None,
            e.user_id == main_admin ==> (r matches Some(a) && a.event == e),
    {
        if e.user_id == main_admin { Some(AdminMsgEvent { event: e }) } else { None }
    }

    /// Decodes a message from the main admin; anything else gives `None`.
    pub fn de(event: &InternalEvent, main_admin: i64) -> (r: Option<AdminMsgEvent>)
        ensures
            r is Some <==> event is OneBotEvent && is_msg_text(server_text(*event), "message"@)
                && text_ints(server_text(*event))["user_id"@] == main_admin,
            r matches Some(a) ==> msg_text_matches(a.event, server_text(*event)),
    {
        match MsgEvent::de(event) {
            Some(e) => AdminMsgEvent::from_msg(e, main_admin),
            None => None,
        }
    }
}

/// A request event (a friend request, a group invitation): its header
/// members, and the whole JSON value.
pub struct RequestEvent {
    pub time: i64,
    pub self_id: i64,
    pub request_type: String,
    pub original_json: serde_json::Value,
}

/// Whether integer and string members make a request event: `post_type`
/// `request`, integer `time` and `self_id`, and a `request_type` string.
pub open spec fn request_members(ints: Map<Seq<char>, i64>, strs: Map<Seq<char>, Seq<char>>) -> bool {
    strs.contains_key("post_type"@) && strs["post_type"@] == "request"@ && ints.contains_key("time"@)
        && ints.contains_key("self_id"@) && strs.contains_key("request_type"@)
}

/// The request event that members give.
pub open spec fn request_is(q: RequestEvent, ints: Map<Seq<char>, i64>, strs: Map<Seq<char>, Seq<char>>) -> bool {
    q.time == ints["time"@] && q.self_id == ints["self_id"@] && q.request_type@ == strs["request_type"@]
}

impl RequestEvent {
    /// Reads a request out of a JSON value.
    pub fn from_json(v: serde_json::Value) -> (r: Option<RequestEvent>)
        ensures
            r is Some <==> request_members(json_ints(v), json_strs(v)),
            r matches Some(q) ==> q.original_json == v && request_is(q, json_ints(v), json_strs(v)),
    {
        let post_type = match get_str(&v, "post_type") { Some(p) => p, None => return None };
        if !str_eq(post_type.as_str(), "request") {
            return None;
        }
        let time = match get_i64(&v, "time") { Some(x) => x, None => return None };
        let self_id = match get_i64(&v, "self_id") { Some(x) => x, None => return None };
        let request_type = match get_str(&v, "request_type") { Some(x) => x, None => return None };
        Some(RequestEvent { time, self_id, request_type, original_json: v })
    }

    /// Decodes a request from a server event; anything else gives `None`.
    pub fn de(event: &InternalEvent) -> (r: Option<RequestEvent>)
        ensures
            r is Some <==> event is OneBotEvent && is_json_text(server_text(*event))
                && request_members(text_ints(server_text(*event)), text_strs(server_text(*event))),
            r matches Some(q) ==> request_is(q, text_ints(server_text(*event)), text_strs(server_text(*event))),
    {
        match event {
            InternalEvent::OneBotEvent(text) => match parse_json(text.as_str()) {
                Ok(v) => RequestEvent::from_json(v),
                Err(_) => None,
            },
            InternalEvent::OneBotApiEvent(_) => None,
        }
    }

    /// The member `key` of the original JSON, if present.
    pub fn get(&self, key: &str) -> (r: Option<&serde_json::Value>)
        ensures
            r is Some <==> json_keys(self.original_json).contains(key@),
    {
        member_ref(&self.original_json, key)
    }
}

/// A message sent in a group.
#[derive(Debug, Clone)]
pub struct GroupMsgEvent {
    pub time: i64,
    pub self_id: i64,
    pub post_type: PostType,
    pub message_type: String,
    pub sub_type: String,
    /// The message content, as the server sent it.
    pub message: serde_json::Value,
    pub message_id: i32,
    pub group_id: i64,
    pub user_id: i64,
    pub anonymous: Option<Anonymous>,
    pub raw_message: String,
    pub font: i32,
    pub sender: Sender,
    /// The whole event as JSON.
    pub original_json: serde_json::Value,
}

/// Whether a group message keeps every field of a message event, with its
/// group id.
pub open spec fn group_msg_of(m: GroupMsgEvent, e: MsgEvent) -> bool {
    &&& e.group_id == Some(m.group_id)
    &&& m.time == e.time && m.self_id == e.self_id && m.post_type == e.post_type
    &&& m.message_type == e.message_type && m.sub_type == e.sub_type && m.message == e.message
    &&& m.message_id == e.message_id && m.user_id == e.user_id && m.anonymous == e.anonymous
    &&& m.raw_message == e.raw_message && m.font == e.font && m.sender == e.sender
    &&& m.original_json == e.original_json
}

impl GroupMsgEvent {
    /// The message as a group message; a message without a group id is
    /// refused with `ParseError("group_id unreachable")`.
    pub fn from_msg(e: MsgEvent) -> (r: Result<GroupMsgEvent, EventBuildError>)
        ensures
            e.group_id is None ==> (r matches Err(x) && parse_error_is(x, "group_id unreachable"@)),
            e.group_id is Some ==> (r matches Ok(m) && group_msg_of(m, e)),
    {
        let group_id = match e.group_id {
            Some(g) => g,
            None => return Err(EventBuildError::ParseError(String::from_str("group_id unreachable"))),
        };
        Ok(GroupMsgEvent {
            time: e.time,
            self_id: e.self_id,
            post_type: e.post_type,
            message_type: e.message_type,
            sub_type: e.sub_type,
            message: e.message,
            message_id: e.message_id,
            group_id,
            user_id: e.user_id,
            anonymous: e.anonymous,
            raw_message: e.raw_message,
            font: e.font,
            sender: e.sender,
            original_json: e.original_json,
        })
    }

    /// Reads a group message out of a JSON value: a message event that has a
    /// `group_id`.
    pub fn from_json(v: serde_json::Value) -> (r: Option<GroupMsgEvent>)
        ensures
            r is Some <==> is_msg_header(v, "message"@) && json_ints(v).contains_key("group_id"@),
            r matches Some(m) ==> exists|e: MsgEvent| msg_matches(e, v) && e.post_type == PostType::Message
                && group_msg_of(m, e),
    {
        match MsgEvent::from_json(v) {
            Some(e) => match GroupMsgEvent::from_msg(e) {
                Ok(m) => Some(m),
                Err(_) => None,
            },
            None => None,
        }
    }

    /// Decodes a group message from a server event; anything else gives `None`.
    pub fn de(event: &InternalEvent) -> (r: Option<GroupMsgEvent>)
        ensures
            r is Some <==> event is OneBotEvent && is_msg_text(server_text(*event), "message"@)
                && text_ints(server_text(*event)).contains_key("group_id"@),
            r matches Some(m) ==> exists|e: MsgEvent| msg_text_matches(e, server_text(*event))
                && e.post_type == PostType::Message && group_msg_of(m, e),
    {
        match MsgEvent::de(event) {
            Some(e) => match GroupMsgEvent::from_msg(e) {
                Ok(m) => Some(m),
                Err(_) => None,
            },
            None => None,
        }
    }

    /// The member `key` of the original JSON, if present.
    pub fn get(&self, key: &str) -> (r: Option<&serde_json::Value>)
        ensures
            r is Some <==> json_keys(self.original_json).contains(key@),
    {
        member_ref(&self.original_json, key)
    }

    /// The sender's nickname; empty when the server gave none.
    pub fn get_sender_nickname(&self) -> (r: String)
        ensures
            self.sender.nickname matches Some(n) ==> r@ == n@,
            self.sender.nickname is None ==> r@.len() == 0,
    {
        match &self.sender.nickname {
            Some(n) => n.clone(),
            None => String::new(),
        }
    }

    /// The request that replies in this message's group with `message`;
    /// `auto_escape` asks the server to send the text as is.
    pub fn reply_builder(&self, message: serde_json::Value, auto_escape: bool, echo: String) -> (r: SendApi)
        ensures
            r.action@ == "send_msg"@,
            r.echo == echo,
            json_is_object(r.params),
            forall|k: Seq<char>| #[trigger] json_keys(r.params).contains(k) <==>
                (k == "message_type"@ || k == "group_id"@ || k == "message"@ || k == "auto_escape"@),
            json_strs(r.params).contains_key("message_type"@) && json_strs(r.params)["message_type"@] == "group"@,
            json_ints(r.params).contains_key("group_id"@) && json_ints(r.params)["group_id"@] == self.group_id,
    {
        proof {
            reveal_strlit("message_type");
            reveal_strlit("group_id");
            reveal_strlit("message");
            reveal_strlit("auto_escape");
            assert("message_type"@.len() != "message"@.len());
            assert("message_type"@[0] != "group_id"@[0]);
            assert("message_type"@[0] != "auto_escape"@[0]);
            assert("group_id"@[0] != "message"@[0]);
            assert("group_id"@[0] != "auto_escape"@[0]);
            assert("message"@[0] != "auto_escape"@[0]);
        }
        let mut members: Vec<(String, serde_json::Value)> = Vec::new();
        members.push((String::from_str("message_type"), json_string(String::from_str("group"))));
        members.push((String::from_str("group_id"), json_int(self.group_id)));
        members.push((String::from_str("message"), message));
        members.push((String::from_str("auto_escape"), json_bool(auto_escape)));
        let ghost m = members@;
        let ghost names = m.map_values(|e: (String, serde_json::Value)| e.0@);
        let params = json_object(members);
        proof {
            assert forall|k: Seq<char>| #[trigger] names.to_set().contains(k) <==>
                (k == "message_type"@ || k == "group_id"@ || k == "message"@ || k == "auto_escape"@) by {
                if names.contains(k) {
                    let i = choose|i: int| 0 <= i < names.len() && names[i] == k;
                    assert(names[i] == m[i].0@);
                }
                if k == "message_type"@ { assert(names[0] == k); }
                if k == "group_id"@ { assert(names[1] == k); }
                if k == "message"@ { assert(names[2] == k); }
                if k == "auto_escape"@ { assert(names[3] == k); }
            }
            assert forall|k: Seq<char>| #[trigger] json_keys(params).contains(k) <==>
                (k == "message_type"@ || k == "group_id"@ || k == "message"@ || k == "auto_escape"@) by {
            }
            assert(m[0].0@ == "message_type"@);
            assert(m[1].0@ == "group_id"@);
            assert(m[2].0@ == "message"@);
            assert(m[3].0@ == "auto_escape"@);
            assert(forall|j: int| 0 < j < m.len() ==> #[trigger] m[j].0@ != m[0].0@);
            assert(forall|j: int| 1 < j < m.len() ==> #[trigger] m[j].0@ != m[1].0@);
            assert(json_as_str(m[0].1) == Some("group"@));
            assert(json_as_i64(m[1].1) == Some(self.group_id));
        }
        SendApi::new("send_msg", params, echo)
    }
}

} // verus!
