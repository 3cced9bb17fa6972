//! Outgoing API requests, the server's replies, and echo tokens.
use vstd::prelude::*;
use vstd::string::*;
use crate::json::{
    text_ints, text_keys, text_strs, get_i64, get_member, get_str, is_json_text, json_ints, json_keys, json_quoted, json_strs,
    parse_json, quote_json,
};
use crate::text::{decimal, decimal_string, str_eq};

verus! {

/// An outgoing API request: `{ "action", "params", "echo" }` on the wire.
#[derive(Clone, Debug)]
pub struct SendApi {
    pub action: String,
    pub params: serde_json::Value,
    pub echo: String,
}

/// A reply of the server to an API request.
#[derive(Clone, Debug)]
pub struct ApiReturn {
    pub status: String,
    pub retcode: i64,
    pub data: serde_json::Value,
    pub echo: String,
}

/// The text of a request frame, given the text of its parameters.
pub open spec fn request_frame(action: Seq<char>, params_text: Seq<char>, echo: Seq<char>) -> Seq<char> {
    "{\"action\":"@ + json_quoted(action) + ",\"params\":"@ + params_text + ",\"echo\":"@
        + json_quoted(echo) + "}"@
}

/// Whether members with these names, integers and strings make a reply:
/// `status` and `echo` strings, an integer `retcode`, and some `data`.
pub open spec fn reply_members(
    keys: Set<Seq<char>>,
    ints: Map<Seq<char>, i64>,
    strs: Map<Seq<char>, Seq<char>>,
) -> bool {
    &&& strs.contains_key("status"@)
    &&& ints.contains_key("retcode"@)
    &&& keys.contains("data"@)
    &&& strs.contains_key("echo"@)
}

/// Whether a JSON value has every member that a reply needs, with its type.
pub open spec fn is_reply_object(v: serde_json::Value) -> bool {
    reply_members(json_keys(v), json_ints(v), json_strs(v))
}

/// Whether a text is JSON that makes a reply.
pub open spec fn is_reply_text(t: Seq<char>) -> bool {
    is_json_text(t) && reply_members(text_keys(t), text_ints(t), text_strs(t))
}

/// The lower-case form of a text, as `str::to_lowercase` computes it.
pub uninterp spec fn lower_of(s: Seq<char>) -> Seq<char>;

/// Relies on `str::to_lowercase`: the result depends on the characters alone.
#[verifier::external_body]
fn lowercase(s: &str) -> (r: String)
    ensures
        r@ == lower_of(s@),
{
    s.to_lowercase()
}

impl SendApi {
    /// A request for `action` with `params`, correlated by `echo`.
    pub fn new(action: &str, params: serde_json::Value, echo: String) -> (r: SendApi)
        ensures
            r.action@ == action@,
            r.params == params,
            r.echo == echo,
    {
        SendApi { action: String::from_str(action), params, echo }
    }

    /// A copy of this request.
    pub fn duplicate(&self) -> (r: SendApi)
        ensures
            r == *self,
    {
        SendApi { action: self.action.clone(), params: self.params.clone(), echo: self.echo.clone() }
    }

    /// The JSON text frame that carries this request.
    pub fn to_frame(&self) -> (r: String)
        ensures
            exists|t: String|
                to_string_from_display_ensures::<serde_json::Value>(&self.params, t)
                    && r@ == request_frame(self.action@, t@, self.echo@),
    {
        let params_text = self.params.to_string();
        let mut r = String::from_str("{\"action\":");
        r.append(quote_json(self.action.as_str()).as_str());
        r.append(",\"params\":");
        r.append(params_text.as_str());
        r.append(",\"echo\":");
        r.append(quote_json(self.echo.as_str()).as_str());
        r.append("}");
        assert(r@ =~= request_frame(self.action@, params_text@, self.echo@));
        r
    }
}

impl ApiReturn {
    /// A copy of this reply.
    pub fn duplicate(&self) -> (r: ApiReturn)
        ensures
            r == *self,
    {
        ApiReturn { status: self.status.clone(), retcode: self.retcode, data: self.data.clone(), echo: self.echo.clone() }
    }

    /// Reads a reply out of a JSON value: `status` and `echo` strings, an
    /// integer `retcode`, and any `data`.
    pub fn from_json(v: &serde_json::Value) -> (r: Option<ApiReturn>)
        ensures
            r is Some <==> is_reply_object(*v),
            r matches Some(a) ==> {
                &&& a.status@ == json_strs(*v)["status"@]
                &&& a.retcode == json_ints(*v)["retcode"@]
                &&& a.echo@ == json_strs(*v)["echo"@]
            },
    {
        let status = match get_str(v, "status") {
            Some(s) => s,
            None => return None,
        };
        let retcode = match get_i64(v, "retcode") {
            Some(n) => n,
            None => return None,
        };
        let data = match get_member(v, "data") {
            Some(d) => d,
            None => return None,
        };
        let echo = match get_str(v, "echo") {
            Some(s) => s,
            None => return None,
        };
        Some(ApiReturn { status, retcode, data, echo })
    }

    /// Reads a reply out of a text frame; text that is no reply gives `None`.
    pub fn decode(text: &str) -> (r: Option<ApiReturn>)
        ensures
            r is Some <==> is_reply_text(text@),
            r matches Some(a) ==> a.status@ == text_strs(text@)["status"@]
                && a.retcode == text_ints(text@)["retcode"@] && a.echo@ == text_strs(text@)["echo"@],
    {
        match parse_json(text) {
            Ok(v) => ApiReturn::from_json(&v),
            Err(_) => None,
        }
    }

    /// Sorts the reply into success or domain failure, given the lower-case
    /// form of its status: it succeeded exactly when that is `ok`.
    pub fn into_result_folded(self, lowered_status: &str) -> (r: Result<ApiReturn, ApiReturn>)
        ensures
            lowered_status@ == "ok"@ ==> r == Ok::<ApiReturn, ApiReturn>(self),
            lowered_status@ != "ok"@ ==> r == Err::<ApiReturn, ApiReturn>(self),
    {
        if str_eq(lowered_status, "ok") {
            Ok(self)
        } else {
            Err(self)
        }
    }

    /// Sorts the reply into success or domain failure: it succeeded exactly
    /// when its status is `ok` in any case.
    pub fn into_result(self) -> (r: Result<ApiReturn, ApiReturn>)
        ensures
            lower_of(self.status@) == "ok"@ ==> r == Ok::<ApiReturn, ApiReturn>(self),
            lower_of(self.status@) != "ok"@ ==> r == Err::<ApiReturn, ApiReturn>(self),
    {
        let lowered = lowercase(self.status.as_str());
        self.into_result_folded(lowered.as_str())
    }
}

/// Hands out echo tokens: the decimal forms of 0, 1, 2, ... in turn, so no
/// token is ever handed out twice.
pub struct EchoSource {
    pub next: u64,
}

impl EchoSource {
    pub fn new() -> (r: EchoSource)
        ensures
            r.next == 0,
    {
        EchoSource { next: 0 }
    }

    /// The next token, or `None` once every `u64` has been used.
    pub fn fresh(&mut self) -> (r: Option<String>)
        ensures
            old(self).next < u64::MAX ==> {
                &&& r matches Some(s) && s@ == decimal(old(self).next as nat)
                &&& final(self).next == old(self).next + 1
            },
            old(self).next == u64::MAX ==> r is None && final(self).next == old(self).next,
    {
        if self.next == u64::MAX {
            return None;
        }
        let s = decimal_string(self.next);
        self.next = self.next + 1;
        Some(s)
    }
}

/// Two tokens handed out by an `EchoSource` at different counts differ.
pub proof fn lemma_echoes_unique(a: u64, b: u64)
    requires
        a != b,
    ensures
        decimal(a as nat) != decimal(b as nat),
{
    if decimal(a as nat) == decimal(b as nat) {
        crate::text::lemma_decimal_injective(a as nat, b as nat);
    }
}

} // verus!
