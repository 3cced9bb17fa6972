//! Fan-out of one inbound event to the plugins' listeners. Each event type is
//! decoded at most once per event: the decode results are cached by tag.
use vstd::prelude::*;
use crate::access::{access_allows, is_access, MessageOrigin};
use crate::plugin::PluginEntry;

verus! {

/// The next thing the runtime must do for the event being dispatched.
#[derive(Clone, Copy, Debug, PartialEq, Eq, Structural)]
pub enum DispatchStep {
    /// Run the decoder of event type `tag` on the event and report the outcome
    /// with `record`.
    Decode(u64),
    /// Start a task that runs this listener's handler on the decoded value.
    Run { plugin: usize, listener: usize },
    /// Every listener has been considered.
    Done,
}

/// Whether a plugin takes part in dispatch of an event: it is enabled and, for
/// a message, its access policy lets the message through.
pub open spec fn admitted(p: PluginEntry, origin: Option<MessageOrigin>) -> bool {
    p.enabled && match origin {
        Some(o) => access_allows(p.access, o),
        None => true,
    }
}

/// Whether position `(p, l)` comes before `(q, m)`.
pub open spec fn before(p: int, l: int, q: int, m: int) -> bool {
    p < q || (p == q && l < m)
}

/// The cached decode outcome of `tag`, if it was decoded.
pub open spec fn cached(cache: Seq<(u64, bool)>, tag: u64) -> Option<bool> {
    if exists|i: int| 0 <= i < cache.len() && cache[i].0 == tag {
        Some(cache[choose|i: int| 0 <= i < cache.len() && cache[i].0 == tag].1)
    } else {
        None
    }
}

/// Whether the listener at `(p, l)` yields no task for the event.
pub open spec fn skipped(plugins: Seq<PluginEntry>, origin: Option<MessageOrigin>, cache: Seq<(u64, bool)>, p: int, l: int) -> bool {
    !admitted(plugins[p], origin) || cached(cache, plugins[p].listeners@[l].tag) == Some(false)
}

/// Every listener from position `(sp, sl)` up to, not including, `(ep, el)`
/// yields no task.
pub open spec fn skipped_between(
    plugins: Seq<PluginEntry>,
    origin: Option<MessageOrigin>,
    cache: Seq<(u64, bool)>,
    sp: int,
    sl: int,
    ep: int,
    el: int,
) -> bool {
    forall|p: int, l: int|
        0 <= p < plugins.len() && 0 <= l < plugins[p].listeners@.len() && !before(p, l, sp, sl)
            && before(p, l, ep, el) ==> #[trigger] skipped(plugins, origin, cache, p, l)
}

/// The dispatch of one event: a cursor over the plugins' listeners and the
/// cache of decode outcomes by event type tag. The cache is a `Vec` of
/// distinct tags in decode order, which is also what `lemma_decode_once`
/// speaks of.
pub struct Dispatch {
    plugin: usize,
    listener: usize,
    cache: Vec<(u64, bool)>,
    awaiting: Option<u64>,
}

impl Dispatch {
    /// The decode outcomes so far, in the order the decoders ran.
    pub closed spec fn decoded(&self) -> Seq<(u64, bool)> {
        self.cache@
    }

    /// The position of the next listener to consider.
    pub closed spec fn cursor(&self) -> (int, int) {
        (self.plugin as int, self.listener as int)
    }

    /// The tag whose decode outcome is awaited, if any.
    pub closed spec fn pending(&self) -> Option<u64> {
        self.awaiting
    }

    /// No tag was decoded twice.
    pub closed spec fn wf(&self) -> bool {
        forall|i: int, j: int| 0 <= i < j < self.cache@.len() ==> #[trigger] self.cache@[i].0 != #[trigger] self.cache@[j].0
    }

    /// A dispatch that has decoded nothing and starts at the first listener.
    pub fn new() -> (r: Dispatch)
        ensures
            r.wf(),
            r.decoded().len() == 0,
            r.cursor() == (0int, 0int),
            r.pending() is None,
    {
        Dispatch { plugin: 0, listener: 0, cache: Vec::new(), awaiting: None }
    }

    /// The tag whose decode outcome `record` waits for.
    pub fn awaiting_decode(&self) -> (r: Option<u64>)
        ensures
            r == self.pending(),
    {
        self.awaiting
    }

    /// The cached outcome of `tag`.
    pub fn lookup(&self, tag: u64) -> (r: Option<bool>)
        requires
            self.wf(),
        ensures
            r == cached(self.decoded(), tag),
    {
        let mut i: usize = 0;
        while i < self.cache.len()
            invariant
                self.wf(),
                i <= self.cache@.len(),
                forall|j: int| 0 <= j < i ==> self.cache@[j].0 != tag,
            decreases self.cache@.len() - i,
        {
            if self.cache[i].0 == tag {
                proof {
                    let c = choose|j: int| 0 <= j < self.cache@.len() && self.cache@[j].0 == tag;
                    assert(c == i as int);
                }
                return Some(self.cache[i].1);
            }
            i = i + 1;
        }
        None
    }

    /// Records the outcome of decoding `tag` (whether the event is of that
    /// type). A tag decoded before keeps its first outcome; then `false` is
    /// returned.
    pub fn record(&mut self, tag: u64, ok: bool) -> (r: bool)
        requires
            old(self).wf(),
        ensures
            final(self).wf(),
            final(self).cursor() == old(self).cursor(),
            r == (cached(old(self).decoded(), tag) is None),
            r ==> final(self).decoded() == old(self).decoded().push((tag, ok)),
            !r ==> final(self).decoded() == old(self).decoded(),
            old(self).pending() == Some(tag) ==> final(self).pending() is None,
            old(self).pending() != Some(tag) ==> final(self).pending() == old(self).pending(),
            cached(final(self).decoded(), tag) is Some,
            r ==> cached(final(self).decoded(), tag) == Some(ok),
            forall|t: u64| t != tag ==> #[trigger] cached(final(self).decoded(), t) == cached(old(self).decoded(), t),
    {
        let known = self.lookup(tag);
        if self.awaiting == Some(tag) {
            self.awaiting = None;
        }
        if known.is_some() {
            return false;
        }
        let ghost before_cache = self.cache@;
        self.cache.push((tag, ok));
        proof {
            let n = before_cache.len() as int;
            assert(self.cache@[n].0 == tag);
            assert forall|t: u64| t != tag implies #[trigger] cached(self.cache@, t) == cached(before_cache, t) by {
                if exists|i: int| 0 <= i < before_cache.len() && before_cache[i].0 == t {
                    let i = choose|i: int| 0 <= i < before_cache.len() && before_cache[i].0 == t;
                    assert(self.cache@[i].0 == t);
                    let c = choose|i: int| 0 <= i < self.cache@.len() && self.cache@[i].0 == t;
                    let c0 = choose|i: int| 0 <= i < before_cache.len() && before_cache[i].0 == t;
                    assert(c == c0);
                } else {
                    if exists|i: int| 0 <= i < self.cache@.len() && self.cache@[i].0 == t {
                        let c = choose|i: int| 0 <= i < self.cache@.len() && self.cache@[i].0 == t;
                        assert(before_cache[c].0 == t);
                    }
                }
            }
            let c = choose|i: int| 0 <= i < self.cache@.len() && self.cache@[i].0 == tag;
            assert(c == n);
        }
        true
    }

    /// Moves to the next listener that gets a task, or to the next decode that
    /// is needed to tell, or to the end. Disabled plugins, and plugins whose
    /// access policy refuses the message, get no task; neither do listeners
    /// whose event type did not decode.
    pub fn step(&mut self, plugins: &Vec<PluginEntry>, origin: &Option<MessageOrigin>) -> (r: DispatchStep)
        requires
            old(self).wf(),
            old(self).pending() is None,
        ensures
            final(self).wf(),
            final(self).decoded() == old(self).decoded(),
            match r {
                DispatchStep::Decode(tag) => {
                    let (p, l) = final(self).cursor();
                    &&& 0 <= p < plugins@.len() && 0 <= l < plugins@[p].listeners@.len()
                    &&& tag == plugins@[p].listeners@[l].tag
                    &&& admitted(plugins@[p], *origin)
                    &&& cached(old(self).decoded(), tag) is None
                    &&& final(self).pending() == Some(tag)
                    &&& skipped_between(plugins@, *origin, old(self).decoded(), old(self).cursor().0, old(self).cursor().1, p, l)
                },
                DispatchStep::Run { plugin, listener } => {
                    let (p, l) = (plugin as int, listener as int);
                    &&& 0 <= p < plugins@.len() && 0 <= l < plugins@[p].listeners@.len()
                    &&& admitted(plugins@[p], *origin)
                    &&& plugins@[p].enabled
                    &&& cached(old(self).decoded(), plugins@[p].listeners@[l].tag) == Some(true)
                    &&& !before(p, l, old(self).cursor().0, old(self).cursor().1)
                    &&& skipped_between(plugins@, *origin, old(self).decoded(), old(self).cursor().0, old(self).cursor().1, p, l)
                    &&& final(self).cursor() == (p, l + 1)
                    &&& final(self).pending() is None
                },
                DispatchStep::Done => {
                    &&& skipped_between(plugins@, *origin, old(self).decoded(), old(self).cursor().0, old(self).cursor().1, plugins@.len() as int, 0)
                    &&& final(self).pending() is None
                },
            },
    {
        let ghost sp = self.plugin as int;
        let ghost sl = self.listener as int;
        let ghost cache = self.cache@;
        while self.plugin < plugins.len()
            invariant
                self.wf(),
                self.cache@ == cache,
                cache == old(self).cache@,
                sp == old(self).plugin,
                sl == old(self).listener,
                self.awaiting is None,
                !before(self.plugin as int, self.listener as int, sp, sl),
                skipped_between(plugins@, *origin, cache, sp, sl, self.plugin as int, self.listener as int),
            decreases plugins@.len() - self.plugin,
        {
            let pe = &plugins[self.plugin];
            let takes_part = pe.enabled && match origin {
                Some(o) => is_access(&pe.access, o),
                None => true,
            };
            let ghost cur = self.plugin;
            if takes_part {
                while self.listener < pe.listeners.len()
                    invariant
                        self.wf(),
                        self.cache@ == cache,
                        cache == old(self).cache@,
                        sp == old(self).plugin,
                        sl == old(self).listener,
                        self.awaiting is None,
                        self.plugin == cur,
                        cur < plugins@.len(),
                        *pe == plugins@[self.plugin as int],
                        admitted(*pe, *origin),
                        !before(self.plugin as int, self.listener as int, sp, sl),
                        skipped_between(plugins@, *origin, cache, sp, sl, self.plugin as int, self.listener as int),
                    decreases pe.listeners@.len() - self.listener,
                {
                    let tag = pe.listeners[self.listener].tag;
                    match self.lookup(tag) {
                        None => {
                            self.awaiting = Some(tag);
                            return DispatchStep::Decode(tag);
                        },
                        Some(true) => {
                            let r = DispatchStep::Run { plugin: self.plugin, listener: self.listener };
                            self.listener = self.listener + 1;
                            return r;
                        },
                        Some(false) => {
                            let ghost (pp, ll) = (self.plugin as int, self.listener as int);
                            self.listener = self.listener + 1;
                            proof {
                                assert(skipped(plugins@, *origin, cache, pp, ll));
                                assert forall|p: int, l: int|
                                    0 <= p < plugins@.len() && 0 <= l < plugins@[p].listeners@.len() && !before(p, l, sp, sl)
                                        && before(p, l, self.plugin as int, self.listener as int)
                                        implies #[trigger] skipped(plugins@, *origin, cache, p, l) by {
                                    if before(p, l, pp, ll) {
                                    } else {
                                        assert(p == pp && l == ll);
                                    }
                                }
                            }
                        },
                    }
                }
            } else {
                proof {
                    assert(!admitted(*pe, *origin));
                }
            }
            let ghost (pp, ll) = (self.plugin as int, self.listener as int);
            self.plugin = self.plugin + 1;
            self.listener = 0;
            proof {
                assert forall|p: int, l: int|
                    0 <= p < plugins@.len() && 0 <= l < plugins@[p].listeners@.len() && !before(p, l, sp, sl)
                        && before(p, l, self.plugin as int, self.listener as int)
                        implies #[trigger] skipped(plugins@, *origin, cache, p, l) by {
                    if before(p, l, pp, ll) {
                    } else {
                        assert(p == pp);
                    }
                }
            }
        }
        proof {
            assert forall|p: int, l: int|
                0 <= p < plugins@.len() && 0 <= l < plugins@[p].listeners@.len() && !before(p, l, sp, sl)
                    && before(p, l, plugins@.len() as int, 0)
                    implies #[trigger] skipped(plugins@, *origin, cache, p, l) by {
                assert(before(p, l, self.plugin as int, self.listener as int));
            }
        }
        DispatchStep::Done
    }
}

/// A disabled plugin takes part in no dispatch, whatever the event: no task
/// of it is started once it is disabled.
pub proof fn lemma_disabled_plugin_gets_nothing(p: PluginEntry, origin: Option<MessageOrigin>)
    requires
        !p.enabled,
    ensures
        !admitted(p, origin),
{
}

/// Once an event type has been decoded for an event, it stays decoded: a
/// later record keeps it, so the dispatcher never asks for it again.
pub proof fn lemma_decoded_stays(decoded: Seq<(u64, bool)>, entry: (u64, bool), tag: u64)
    requires
        cached(decoded, tag) is Some,
    ensures
        cached(decoded.push(entry), tag) is Some,
{
    let i = choose|i: int| 0 <= i < decoded.len() && decoded[i].0 == tag;
    assert(decoded.push(entry)[i].0 == tag);
}

/// Within one event, no event type is decoded twice: the recorded decodes
/// carry distinct tags, and a decode is only asked for a tag not yet recorded.
pub proof fn lemma_decode_once(d: Dispatch, i: int, j: int)
    requires
        d.wf(),
        0 <= i < j < d.decoded().len(),
    ensures
        d.decoded()[i].0 != d.decoded()[j].0,
{
}

} // verus!
