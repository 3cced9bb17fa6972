//! The API correlator: outgoing requests waiting for their reply, keyed by
//! echo token.
use vstd::prelude::*;
use vstd::pervasive::VecAdditionalExecFns;
use vstd::string::to_string_from_display_ensures;
use crate::connect::Frame;
use crate::text::decimal;
use crate::json::{text_ints, text_strs};
use crate::api::{is_reply_text, lemma_echoes_unique, lower_of, request_frame, ApiReturn, SendApi};

verus! {

/// A request that was written to the server, with the sink that waits for its
/// reply (`None` when the caller does not wait).
pub struct PendingCall<S> {
    pub request: SendApi,
    pub sink: Option<S>,
}

/// A reply matched to its request: the sink to hand `result` to, and the pair
/// that observers of outgoing traffic see.
pub struct Delivery<S> {
    pub request: SendApi,
    pub sink: Option<S>,
    pub result: Result<ApiReturn, ApiReturn>,
}

/// What becomes of an inbound frame on the API connection.
pub enum ReplyOutcome<S> {
    /// The frame is not a reply; it is dropped.
    Malformed,
    /// No request waits under the reply's echo; it is dropped.
    UnknownEcho(ApiReturn),
    /// The reply reached the request that carried its echo.
    Delivered(Delivery<S>),
}

/// What the API connection's reader does with a frame.
pub enum ApiFrameAction<S> {
    /// A text frame, handled as a reply.
    Reply(ReplyOutcome<S>),
    /// A close frame: the connection failed; raise `Drop`.
    Fail,
    /// Any other frame: nothing.
    Ignore,
}

/// The success or failure that a reply stands for, by its status.
pub open spec fn reply_result(reply: ApiReturn) -> Result<ApiReturn, ApiReturn> {
    if lower_of(reply.status@) == "ok"@ {
        Ok(reply)
    } else {
        Err(reply)
    }
}

/// The map `echo -> pending call`. Each echo is held at most once.
///
/// The entries sit in a `Vec` with that invariant: vstd models a hash map only
/// for std's own hasher and for keys whose hashing it knows, which neither an
/// `ahash` map nor a `String` key is.
pub struct Correlator<S> {
    entries: Vec<PendingCall<S>>,
    model: Ghost<Map<Seq<char>, PendingCall<S>>>,
}

impl<S> Correlator<S> {
    /// The pending calls by echo.
    pub closed spec fn view(&self) -> Map<Seq<char>, PendingCall<S>> {
        self.model@
    }

    /// The entries hold exactly the pending calls, each echo once.
    pub closed spec fn wf(&self) -> bool {
        &&& forall|i: int| 0 <= i < self.entries@.len() ==>
            #[trigger] self.model@.contains_key(self.entries@[i].request.echo@)
                && self.model@[self.entries@[i].request.echo@] == self.entries@[i]
        &&& forall|k: Seq<char>| #[trigger] self.model@.contains_key(k) ==>
            exists|i: int| 0 <= i < self.entries@.len() && self.entries@[i].request.echo@ == k
        &&& forall|i: int, j: int| 0 <= i < self.entries@.len() && 0 <= j < self.entries@.len() && i != j
            ==> #[trigger] self.entries@[i].request.echo@ != #[trigger] self.entries@[j].request.echo@
    }

    pub fn new() -> (r: Correlator<S>)
        ensures
            r.wf(),
            r@ == Map::<Seq<char>, PendingCall<S>>::empty(),
    {
        Correlator { entries: Vec::new(), model: Ghost(Map::empty()) }
    }

    /// The number of requests waiting for a reply.
    pub fn len(&self) -> (r: usize)
        requires
            self.wf(),
        ensures
            r == self@.len(),
    {
        proof {
            self.lemma_len();
        }
        self.entries.len()
    }

    proof fn lemma_len(&self)
        requires
            self.wf(),
        ensures
            self.entries@.len() == self@.len(),
    {
        let keys = Seq::new(self.entries@.len(), |i: int| self.entries@[i].request.echo@);
        assert(keys.no_duplicates());
        keys.unique_seq_to_set();
        assert(keys.to_set() =~= self@.dom()) by {
            assert forall|k: Seq<char>| keys.to_set().contains(k) implies self@.dom().contains(k) by {
                let i = choose|i: int| 0 <= i < keys.len() && keys[i] == k;
                assert(self.model@.contains_key(self.entries@[i].request.echo@));
            }
            assert forall|k: Seq<char>| self@.dom().contains(k) implies keys.to_set().contains(k) by {
                assert(self.model@.contains_key(k));
                let i = choose|i: int| 0 <= i < self.entries@.len() && self.entries@[i].request.echo@ == k;
                assert(keys[i] == k);
            }
        }
    }

    /// The position of the entry for `echo`, if there is one.
    fn find(&self, echo: &String) -> (r: Option<usize>)
        requires
            self.wf(),
        ensures
            match r {
                Some(i) => i < self.entries@.len() && self.entries@[i as int].request.echo@ == echo@,
                None => !self@.contains_key(echo@),
            },
    {
        let mut i: usize = 0;
        while i < self.entries.len()
            invariant
                self.wf(),
                i <= self.entries@.len(),
                forall|j: int| 0 <= j < i ==> self.entries@[j].request.echo@ != echo@,
            decreases self.entries@.len() - i,
        {
            if self.entries[i].request.echo == *echo {
                return Some(i);
            }
            i = i + 1;
        }
        proof {
            if self.model@.contains_key(echo@) {
                let j = choose|j: int| 0 <= j < self.entries@.len() && self.entries@[j].request.echo@ == echo@;
                assert(self.entries@[j].request.echo@ != echo@);
            }
        }
        None
    }

    /// Whether a request waits under `echo`.
    pub fn contains(&self, echo: &String) -> (r: bool)
        requires
            self.wf(),
        ensures
            r == self@.contains_key(echo@),
    {
        match self.find(echo) {
            Some(i) => {
                assert(self.model@.contains_key(self.entries@[i as int].request.echo@));
                true
            },
            None => false,
        }
    }

    /// Records a request before its frame is written. A call that waited
    /// under the same echo is displaced and handed back.
    pub fn register(&mut self, request: SendApi, sink: Option<S>) -> (r: Option<PendingCall<S>>)
        requires
            old(self).wf(),
        ensures
            final(self).wf(),
            final(self)@ == old(self)@.insert(request.echo@, PendingCall { request, sink }),
            old(self)@.contains_key(request.echo@) ==> r == Some(old(self)@[request.echo@]),
            !old(self)@.contains_key(request.echo@) ==> r is None,
    {
        let ghost key = request.echo@;
        let ghost call = PendingCall { request, sink };
        match self.find(&request.echo) {
            Some(i) => {
                let ghost old_entries = self.entries@;
                proof {
                    assert(self.model@.contains_key(old_entries[i as int].request.echo@));
                }
                let mut old_call = PendingCall { request, sink };
                self.entries.set_and_swap(i, &mut old_call);
                self.model = Ghost(self.model@.insert(key, call));
                proof {
                    assert(self.entries@ == old_entries.update(i as int, call));
                    assert forall|k: Seq<char>| #[trigger] self.model@.contains_key(k) implies
                        exists|j: int| 0 <= j < self.entries@.len() && self.entries@[j].request.echo@ == k by {
                        if k == key {
                            assert(self.entries@[i as int].request.echo@ == k);
                        } else {
                            let j = choose|j: int| 0 <= j < old_entries.len() && old_entries[j].request.echo@ == k;
                            assert(self.entries@[j].request.echo@ == k);
                        }
                    }
                }
                Some(old_call)
            },
            None => {
                let ghost old_entries = self.entries@;
                self.entries.push(PendingCall { request, sink });
                self.model = Ghost(self.model@.insert(key, call));
                proof {
                    assert forall|k: Seq<char>| #[trigger] self.model@.contains_key(k) implies
                        exists|j: int| 0 <= j < self.entries@.len() && self.entries@[j].request.echo@ == k by {
                        if k == key {
                            assert(self.entries@[old_entries.len() as int].request.echo@ == k);
                        } else {
                            let j = choose|j: int| 0 <= j < old_entries.len() && old_entries[j].request.echo@ == k;
                            assert(self.entries@[j].request.echo@ == k);
                        }
                    }
                    assert forall|a: int| 0 <= a < old_entries.len() implies
                        #[trigger] old_entries[a].request.echo@ != key by {
                        assert(self.model@.contains_key(old_entries[a].request.echo@));
                    }
                }
                None
            },
        }
    }

    /// Records a request and gives the frame that carries it; the request is
    /// held before the frame is written, so its reply always finds it.
    pub fn send(&mut self, request: SendApi, sink: Option<S>) -> (r: String)
        requires
            old(self).wf(),
        ensures
            final(self).wf(),
            final(self)@ == old(self)@.insert(request.echo@, PendingCall { request, sink }),
            exists|t: String|
                to_string_from_display_ensures::<serde_json::Value>(&request.params, t)
                    && r@ == request_frame(request.action@, t@, request.echo@),
    {
        let frame = request.to_frame();
        self.register(request, sink);
        frame
    }

    /// Takes out the call that waits under `echo`. A reply whose echo is not
    /// held takes nothing out and changes nothing.
    pub fn resolve(&mut self, echo: &String) -> (r: Option<PendingCall<S>>)
        requires
            old(self).wf(),
        ensures
            final(self).wf(),
            old(self)@.contains_key(echo@) ==> r == Some(old(self)@[echo@])
                && final(self)@ == old(self)@.remove(echo@),
            !old(self)@.contains_key(echo@) ==> r is None && final(self)@ == old(self)@,
    {
        match self.find(echo) {
            None => None,
            Some(i) => {
                let ghost old_entries = self.entries@;
                let ghost old_model = self.model@;
                proof {
                    assert(old_model.contains_key(old_entries[i as int].request.echo@));
                }
                let call = self.entries.remove(i);
                self.model = Ghost(self.model@.remove(echo@));
                proof {
                    assert(self.entries@ == old_entries.remove(i as int));
                    assert forall|a: int| 0 <= a < self.entries@.len() implies
                        #[trigger] self.model@.contains_key(self.entries@[a].request.echo@)
                            && self.model@[self.entries@[a].request.echo@] == self.entries@[a] by {
                        let b = if a < i { a } else { a + 1 };
                        assert(self.entries@[a] == old_entries[b]);
                        assert(old_model.contains_key(old_entries[b].request.echo@));
                        assert(b != i);
                    }
                    assert forall|k: Seq<char>| #[trigger] self.model@.contains_key(k) implies
                        exists|j: int| 0 <= j < self.entries@.len() && self.entries@[j].request.echo@ == k by {
                        assert(old_model.contains_key(k));
                        let j = choose|j: int| 0 <= j < old_entries.len() && old_entries[j].request.echo@ == k;
                        assert(j != i);
                        if j < i {
                            assert(self.entries@[j].request.echo@ == k);
                        } else {
                            assert(self.entries@[j - 1].request.echo@ == k);
                        }
                    }
                    assert forall|a: int, c: int| 0 <= a < self.entries@.len() && 0 <= c < self.entries@.len() && a != c
                        implies #[trigger] self.entries@[a].request.echo@ != #[trigger] self.entries@[c].request.echo@ by {
                        let a2 = if a < i { a } else { a + 1 };
                        let c2 = if c < i { c } else { c + 1 };
                        assert(self.entries@[a] == old_entries[a2]);
                        assert(self.entries@[c] == old_entries[c2]);
                    }
                }
                Some(call)
            },
        }
    }

    /// Matches a reply to its request and sorts it into success or failure,
    /// given the lower-case form of its status.
    pub fn accept_reply_folded(&mut self, reply: ApiReturn, lowered_status: &str) -> (r: ReplyOutcome<S>)
        requires
            old(self).wf(),
        ensures
            final(self).wf(),
            !old(self)@.contains_key(reply.echo@) ==> r == ReplyOutcome::<S>::UnknownEcho(reply)
                && final(self)@ == old(self)@,
            old(self)@.contains_key(reply.echo@) ==> {
                &&& final(self)@ == old(self)@.remove(reply.echo@)
                &&& r matches ReplyOutcome::Delivered(d)
                &&& d.request == old(self)@[reply.echo@].request
                &&& d.sink == old(self)@[reply.echo@].sink
                &&& lowered_status@ == "ok"@ ==> d.result == Ok::<ApiReturn, ApiReturn>(reply)
                &&& lowered_status@ != "ok"@ ==> d.result == Err::<ApiReturn, ApiReturn>(reply)
            },
    {
        match self.resolve(&reply.echo) {
            None => ReplyOutcome::UnknownEcho(reply),
            Some(call) => {
                let result = reply.into_result_folded(lowered_status);
                ReplyOutcome::Delivered(Delivery { request: call.request, sink: call.sink, result })
            },
        }
    }

    /// Matches a reply to its request and sorts it into success or failure.
    pub fn accept_reply(&mut self, reply: ApiReturn) -> (r: ReplyOutcome<S>)
        requires
            old(self).wf(),
        ensures
            final(self).wf(),
            !old(self)@.contains_key(reply.echo@) ==> r == ReplyOutcome::<S>::UnknownEcho(reply)
                && final(self)@ == old(self)@,
            old(self)@.contains_key(reply.echo@) ==> {
                &&& final(self)@ == old(self)@.remove(reply.echo@)
                &&& r matches ReplyOutcome::Delivered(d)
                &&& d.request == old(self)@[reply.echo@].request
                &&& d.sink == old(self)@[reply.echo@].sink
                &&& d.result == reply_result(reply)
            },
    {
        match self.resolve(&reply.echo) {
            None => ReplyOutcome::UnknownEcho(reply),
            Some(call) => {
                let result = reply.into_result();
                ReplyOutcome::Delivered(Delivery { request: call.request, sink: call.sink, result })
            },
        }
    }

    /// Handles one text frame read from the API connection: text that is no
    /// reply is dropped, and replies go through `accept_reply`.
    pub fn accept_frame(&mut self, text: &str) -> (r: ReplyOutcome<S>)
        requires
            old(self).wf(),
        ensures
            final(self).wf(),
            !is_reply_text(text@) ==> r is Malformed && final(self)@ == old(self)@,
            is_reply_text(text@) ==> {
                let echo = text_strs(text@)["echo"@];
                &&& !old(self)@.contains_key(echo) ==> (r matches ReplyOutcome::UnknownEcho(a)
                    && a.echo@ == echo && final(self)@ == old(self)@)
                &&& old(self)@.contains_key(echo) ==> (r matches ReplyOutcome::Delivered(d)
                    && d.request == old(self)@[echo].request
                    && d.sink == old(self)@[echo].sink
                    && final(self)@ == old(self)@.remove(echo)
                    && (d.result matches Ok(a) ==> a.echo@ == echo && lower_of(a.status@) == "ok"@
                        && a.status@ == text_strs(text@)["status"@] && a.retcode == text_ints(text@)["retcode"@])
                    && (d.result matches Err(a) ==> a.echo@ == echo && lower_of(a.status@) != "ok"@
                        && a.status@ == text_strs(text@)["status"@] && a.retcode == text_ints(text@)["retcode"@]))
            },
    {
        match ApiReturn::decode(text) {
            None => ReplyOutcome::Malformed,
            Some(reply) => self.accept_reply(reply),
        }
    }

    /// Handles one frame read from the API connection: text frames are
    /// replies, a close frame is a failure, other frames are ignored.
    pub fn accept(&mut self, frame: Frame) -> (r: ApiFrameAction<S>)
        requires
            old(self).wf(),
        ensures
            final(self).wf(),
            !(frame is Text) ==> final(self)@ == old(self)@,
            frame is Close ==> r is Fail,
            frame is Other ==> r is Ignore,
            frame matches Frame::Text(t) ==> {
                &&& r is Reply
                &&& !is_reply_text(t@) ==> (r matches ApiFrameAction::Reply(o) && o is Malformed
                    && final(self)@ == old(self)@)
                &&& is_reply_text(t@) && !old(self)@.contains_key(text_strs(t@)["echo"@]) ==>
                    (r matches ApiFrameAction::Reply(o) && o is UnknownEcho && final(self)@ == old(self)@)
                &&& is_reply_text(t@) && old(self)@.contains_key(text_strs(t@)["echo"@]) ==>
                    (r matches ApiFrameAction::Reply(ReplyOutcome::Delivered(d))
                    && d.request == old(self)@[text_strs(t@)["echo"@]].request
                    && d.sink == old(self)@[text_strs(t@)["echo"@]].sink
                    && final(self)@ == old(self)@.remove(text_strs(t@)["echo"@]))
            },
    {
        match frame {
            Frame::Text(t) => ApiFrameAction::Reply(self.accept_frame(t.as_str())),
            Frame::Close => ApiFrameAction::Fail,
            Frame::Other => ApiFrameAction::Ignore,
        }
    }

}

/// Each reply reaches the caller that originated its echo and no other: with
/// two calls registered under different echoes, whichever reply comes first,
/// resolving either echo yields its own call and leaves the other in place.
pub proof fn lemma_correlation_unique<S>(
    pending: Map<Seq<char>, PendingCall<S>>,
    a: PendingCall<S>,
    b: PendingCall<S>,
)
    requires
        a.request.echo@ != b.request.echo@,
    ensures
        ({
            let m = pending.insert(a.request.echo@, a).insert(b.request.echo@, b);
            &&& m[a.request.echo@] == a
            &&& m[b.request.echo@] == b
            &&& m.remove(a.request.echo@)[b.request.echo@] == b
            &&& m.remove(b.request.echo@)[a.request.echo@] == a
            &&& !m.remove(a.request.echo@).contains_key(a.request.echo@)
        }),
{
}

/// An echo handed out fresh by an `EchoSource` never collides with a call
/// still pending under an earlier token, so registering it displaces no other
/// caller's call.
pub proof fn lemma_fresh_echo_not_pending<S>(pending: Map<Seq<char>, PendingCall<S>>, next: u64)
    requires
        forall|k: Seq<char>| #[trigger] pending.contains_key(k) ==> exists|n: u64| n < next && k == decimal(n as nat),
    ensures
        !pending.contains_key(decimal(next as nat)),
{
    if pending.contains_key(decimal(next as nat)) {
        let n = choose|n: u64| n < next && decimal(next as nat) == decimal(n as nat);
        lemma_echoes_unique(n, next);
    }
}

/// A registered request is recovered by the reply that echoes it back: the
/// call found under the reply's echo is the request as registered, with its
/// sink.
pub proof fn lemma_round_trip<S>(
    pending: Map<Seq<char>, PendingCall<S>>,
    request: SendApi,
    sink: Option<S>,
    reply: ApiReturn,
)
    requires
        reply.echo@ == request.echo@,
    ensures
        ({
            let m = pending.insert(request.echo@, PendingCall { request, sink });
            &&& m.contains_key(reply.echo@)
            &&& m[reply.echo@].request == request
            &&& m[reply.echo@].sink == sink
        }),
{
}

} // verus!
