//! Plugin state: the listeners a plugin registered, its enable flag, its
//! access policy, and the order in which it shuts down.
use vstd::prelude::*;
use crate::access::AccessControl;

verus! {

/// A registered listener: the event type it waits for, by tag. Its decoder and
/// handler are kept by the runtime under the same position.
#[derive(Clone, Copy, Debug, PartialEq, Eq, Structural)]
pub struct Listener {
    pub tag: u64,
}

/// What the dispatcher reads of a plugin.
#[derive(Clone, Debug)]
pub struct PluginEntry {
    pub name: String,
    pub enabled: bool,
    pub access: AccessControl,
    pub listeners: Vec<Listener>,
    pub drop_hooks: usize,
}

impl PluginEntry {
    /// A fresh plugin: enabled, with no listeners and no shutdown hooks.
    pub fn new(name: String, access: AccessControl) -> (r: PluginEntry)
        ensures
            r.name == name,
            r.enabled,
            r.access == access,
            r.listeners@.len() == 0,
            r.drop_hooks == 0,
    {
        PluginEntry { name, enabled: true, access, listeners: Vec::new(), drop_hooks: 0 }
    }

    /// Registers a listener for the event type `tag`; it is placed last.
    pub fn on(&mut self, tag: u64) -> (r: usize)
        ensures
            final(self).listeners@ == old(self).listeners@.push(Listener { tag }),
            r == old(self).listeners@.len(),
            final(self).name == old(self).name,
            final(self).enabled == old(self).enabled,
            final(self).access == old(self).access,
            final(self).drop_hooks == old(self).drop_hooks,
    {
        let r = self.listeners.len();
        self.listeners.push(Listener { tag });
        r
    }

    /// Registers a shutdown hook; hooks run in registration order. Returns its
    /// position, or `None` when no more can be counted.
    pub fn add_drop_hook(&mut self) -> (r: Option<usize>)
        ensures
            old(self).drop_hooks < usize::MAX ==> r == Some(old(self).drop_hooks)
                && final(self).drop_hooks == old(self).drop_hooks + 1,
            old(self).drop_hooks == usize::MAX ==> r is None && final(self).drop_hooks == old(self).drop_hooks,
            final(self).listeners == old(self).listeners,
            final(self).enabled == old(self).enabled,
    {
        if self.drop_hooks == usize::MAX {
            return None;
        }
        let r = self.drop_hooks;
        self.drop_hooks = self.drop_hooks + 1;
        Some(r)
    }

    /// Turns dispatch to this plugin on or off. Missed events are not replayed.
    pub fn set_enabled(&mut self, enabled: bool)
        ensures
            final(self).enabled == enabled,
            final(self).listeners == old(self).listeners,
            final(self).access == old(self).access,
            final(self).drop_hooks == old(self).drop_hooks,
            final(self).name == old(self).name,
    {
        self.enabled = enabled;
    }

    /// Forgets every listener and hook.
    pub fn clear(&mut self)
        ensures
            final(self).listeners@.len() == 0,
            final(self).drop_hooks == 0,
            final(self).enabled == old(self).enabled,
    {
        self.listeners = Vec::new();
        self.drop_hooks = 0;
    }
}

/// Where a plugin stands in its shutdown.
#[derive(Clone, Copy, Debug, PartialEq, Eq, Structural)]
pub enum ShutdownStage {
    /// Not shutting down.
    Running,
    /// The disable signal is being sent.
    Disabling,
    /// Waiting for every listener and cron task to be cancelled.
    Draining,
    /// Running the shutdown hooks; the next one to run is `next_hook`.
    Hooks,
    /// Every hook has run.
    Done,
}

/// What the runtime reports to a plugin's shutdown.
#[derive(Clone, Copy, Debug, PartialEq, Eq, Structural)]
pub enum ShutdownEvent {
    /// Shutdown was requested.
    Begin,
    /// The disable signal was sent.
    Disabled,
    /// Every listener and cron task of the plugin has ended.
    TasksCancelled,
    /// The hook last asked for has finished.
    HookFinished,
}

/// What the runtime must do next for a plugin's shutdown.
#[derive(Clone, Copy, Debug, PartialEq, Eq, Structural)]
pub enum ShutdownAction {
    /// Send `false` on the plugin's enable signal.
    SignalDisable,
    /// Wait until every task of the plugin has been cancelled.
    AwaitTasks,
    /// Run the shutdown hook at this position, and report when it finishes.
    RunHook(usize),
    /// Shutdown is complete.
    Finished,
    /// The event does not apply in this stage; nothing to do.
    Ignore,
}

/// The shutdown of one plugin, as a state machine. Hooks run only once all
/// tasks are cancelled, each once, in registration order.
#[derive(Clone, Copy, Debug)]
pub struct PluginShutdown {
    pub stage: ShutdownStage,
    pub hook_count: usize,
    pub next_hook: usize,
}

impl PluginShutdown {
    pub open spec fn wf(&self) -> bool {
        &&& self.next_hook <= self.hook_count
        &&& (self.stage != ShutdownStage::Hooks && self.stage != ShutdownStage::Done) ==> self.next_hook == 0
        &&& self.stage == ShutdownStage::Done ==> self.next_hook == self.hook_count
        &&& self.stage == ShutdownStage::Hooks ==> self.next_hook >= 1
    }

    /// Whether every task of the plugin was known to be cancelled.
    pub open spec fn tasks_cancelled(&self) -> bool {
        self.stage == ShutdownStage::Hooks || self.stage == ShutdownStage::Done
    }

    /// A plugin that is running and has `hook_count` shutdown hooks.
    pub fn new(hook_count: usize) -> (r: PluginShutdown)
        ensures
            r.wf(),
            r.stage == ShutdownStage::Running,
            r.hook_count == hook_count,
    {
        PluginShutdown { stage: ShutdownStage::Running, hook_count, next_hook: 0 }
    }

    /// Advances the shutdown by one event.
    pub fn step(&mut self, event: ShutdownEvent) -> (r: ShutdownAction)
        requires
            old(self).wf(),
        ensures
            final(self).wf(),
            (r, *final(self)) == step_spec(*old(self), event),
    {
        match (self.stage, event) {
            (ShutdownStage::Running, ShutdownEvent::Begin) => {
                self.stage = ShutdownStage::Disabling;
                ShutdownAction::SignalDisable
            },
            (ShutdownStage::Disabling, ShutdownEvent::Disabled) => {
                self.stage = ShutdownStage::Draining;
                ShutdownAction::AwaitTasks
            },
            (ShutdownStage::Draining, ShutdownEvent::TasksCancelled)
            | (ShutdownStage::Hooks, ShutdownEvent::HookFinished) => {
                if self.next_hook < self.hook_count {
                    let i = self.next_hook;
                    self.next_hook = i + 1;
                    self.stage = ShutdownStage::Hooks;
                    ShutdownAction::RunHook(i)
                } else {
                    self.stage = ShutdownStage::Done;
                    ShutdownAction::Finished
                }
            },
            _ => ShutdownAction::Ignore,
        }
    }
}

/// The shutdown machine's step, as a function of the state and the event.
pub open spec fn step_spec(s: PluginShutdown, event: ShutdownEvent) -> (ShutdownAction, PluginShutdown) {
    match (s.stage, event) {
        (ShutdownStage::Running, ShutdownEvent::Begin) =>
            (ShutdownAction::SignalDisable, PluginShutdown { stage: ShutdownStage::Disabling, ..s }),
        (ShutdownStage::Disabling, ShutdownEvent::Disabled) =>
            (ShutdownAction::AwaitTasks, PluginShutdown { stage: ShutdownStage::Draining, ..s }),
        (ShutdownStage::Draining, ShutdownEvent::TasksCancelled) | (ShutdownStage::Hooks, ShutdownEvent::HookFinished) =>
            if s.next_hook < s.hook_count {
                (ShutdownAction::RunHook(s.next_hook),
                 PluginShutdown { stage: ShutdownStage::Hooks, next_hook: (s.next_hook + 1) as usize, ..s })
            } else {
                (ShutdownAction::Finished, PluginShutdown { stage: ShutdownStage::Done, ..s })
            },
        _ => (ShutdownAction::Ignore, s),
    }
}

/// The state after a sequence of events.
pub open spec fn run_events(s: PluginShutdown, events: Seq<ShutdownEvent>) -> PluginShutdown
    decreases events.len(),
{
    if events.len() == 0 {
        s
    } else {
        step_spec(run_events(s, events.drop_last()), events.last()).1
    }
}

/// The action taken on the `k`-th event of a sequence.
pub open spec fn action_at(s: PluginShutdown, events: Seq<ShutdownEvent>, k: int) -> ShutdownAction {
    step_spec(run_events(s, events.subrange(0, k)), events[k]).0
}

proof fn lemma_run_prefix(s: PluginShutdown, events: Seq<ShutdownEvent>, k: int)
    requires
        0 <= k < events.len(),
    ensures
        run_events(s, events.subrange(0, k + 1)) == step_spec(run_events(s, events.subrange(0, k)), events[k]).1,
{
    assert(events.subrange(0, k + 1).drop_last() =~= events.subrange(0, k));
}

proof fn lemma_step_keeps(s: PluginShutdown, event: ShutdownEvent)
    requires
        s.wf(),
    ensures
        step_spec(s, event).1.wf(),
        step_spec(s, event).1.hook_count == s.hook_count,
        step_spec(s, event).1.next_hook >= s.next_hook,
        s.tasks_cancelled() ==> step_spec(s, event).1.tasks_cancelled(),
{
}

proof fn lemma_run_keeps(s: PluginShutdown, events: Seq<ShutdownEvent>, a: int, b: int)
    requires
        s.wf(),
        0 <= a <= b <= events.len(),
    ensures
        run_events(s, events.subrange(0, b)).wf(),
        run_events(s, events.subrange(0, b)).hook_count == s.hook_count,
        run_events(s, events.subrange(0, b)).next_hook >= run_events(s, events.subrange(0, a)).next_hook,
        run_events(s, events.subrange(0, a)).tasks_cancelled() ==> run_events(s, events.subrange(0, b)).tasks_cancelled(),
    decreases b,
{
    if b == 0 {
        assert(events.subrange(0, 0) =~= Seq::<ShutdownEvent>::empty());
    } else {
        lemma_run_prefix(s, events, b - 1);
        if a == b {
            lemma_run_keeps(s, events, a - 1, b - 1);
        } else {
            lemma_run_keeps(s, events, a, b - 1);
        }
        lemma_step_keeps(run_events(s, events.subrange(0, b - 1)), events[b - 1]);
    }
}

proof fn lemma_cancelled_has_cause(s: PluginShutdown, events: Seq<ShutdownEvent>, k: int)
    requires
        s.wf(),
        !s.tasks_cancelled(),
        0 <= k <= events.len(),
        run_events(s, events.subrange(0, k)).tasks_cancelled(),
    ensures
        exists|j: int| 0 <= j < k && events[j] == ShutdownEvent::TasksCancelled
            && run_events(s, events.subrange(0, j)).stage == ShutdownStage::Draining,
    decreases k,
{
    if k == 0 {
        assert(events.subrange(0, 0) =~= Seq::<ShutdownEvent>::empty());
    } else {
        lemma_run_prefix(s, events, k - 1);
        let prev = run_events(s, events.subrange(0, k - 1));
        if prev.tasks_cancelled() {
            lemma_cancelled_has_cause(s, events, k - 1);
            let j = choose|j: int| 0 <= j < k - 1 && events[j] == ShutdownEvent::TasksCancelled
                && run_events(s, events.subrange(0, j)).stage == ShutdownStage::Draining;
            assert(0 <= j < k);
        } else {
            assert(events[k - 1] == ShutdownEvent::TasksCancelled && prev.stage == ShutdownStage::Draining);
        }
    }
}

/// On shutdown, a plugin's hooks run only after all of its tasks were
/// cancelled, each at most once and in registration order: starting from a
/// running plugin, every hook asked for follows a report, taken while draining,
/// that the tasks were cancelled; and of two hooks asked for, the later one
/// has the higher position.
pub proof fn lemma_shutdown_order(hook_count: usize, events: Seq<ShutdownEvent>, k: int, k2: int)
    requires
        0 <= k < k2 < events.len(),
    ensures
        ({
            let s = PluginShutdown { stage: ShutdownStage::Running, hook_count, next_hook: 0 };
            &&& action_at(s, events, k) is RunHook ==> exists|j: int| 0 <= j <= k
                && events[j] == ShutdownEvent::TasksCancelled
                && run_events(s, events.subrange(0, j)).stage == ShutdownStage::Draining
            &&& action_at(s, events, k) matches ShutdownAction::RunHook(i) ==> (
                action_at(s, events, k2) matches ShutdownAction::RunHook(i2) ==> i < i2 < hook_count)
        }),
{
    let s = PluginShutdown { stage: ShutdownStage::Running, hook_count, next_hook: 0 };
    let pk = run_events(s, events.subrange(0, k));
    lemma_run_keeps(s, events, 0, k);
    if action_at(s, events, k) is RunHook {
        if pk.tasks_cancelled() {
            lemma_cancelled_has_cause(s, events, k);
        } else {
            assert(pk.stage == ShutdownStage::Draining && events[k] == ShutdownEvent::TasksCancelled);
        }
        lemma_run_prefix(s, events, k);
        lemma_run_keeps(s, events, k + 1, k2);
    }
}

/// The events of an orderly shutdown of a plugin with `n` hooks: begin, the
/// disable signal sent, the tasks cancelled, then each hook finished.
pub open spec fn orderly_events(n: nat) -> Seq<ShutdownEvent> {
    seq![ShutdownEvent::Begin, ShutdownEvent::Disabled, ShutdownEvent::TasksCancelled]
        + Seq::new(n, |i: int| ShutdownEvent::HookFinished)
}

proof fn lemma_orderly_state(n: usize, k: int)
    requires
        0 <= k <= n,
    ensures
        ({
            let s = PluginShutdown { stage: ShutdownStage::Running, hook_count: n, next_hook: 0 };
            let t = run_events(s, orderly_events(n as nat).subrange(0, 3 + k));
            &&& k < n ==> t == PluginShutdown { stage: ShutdownStage::Hooks, hook_count: n, next_hook: (k + 1) as usize }
            &&& k == n ==> t == PluginShutdown { stage: ShutdownStage::Done, hook_count: n, next_hook: n }
        }),
    decreases k,
{
    let s = PluginShutdown { stage: ShutdownStage::Running, hook_count: n, next_hook: 0 };
    let ev = orderly_events(n as nat);
    if k == 0 {
        assert(ev.subrange(0, 0) =~= Seq::<ShutdownEvent>::empty());
        lemma_run_prefix(s, ev, 0);
        lemma_run_prefix(s, ev, 1);
        lemma_run_prefix(s, ev, 2);
    } else {
        lemma_orderly_state(n, k - 1);
        lemma_run_prefix(s, ev, 3 + k - 1);
    }
}

/// On shutdown each hook runs exactly once, in registration order, after the
/// tasks are cancelled, for any number of hooks: driven by the orderly events,
/// the plugin signals disable, awaits its tasks, runs hooks `0 .. n` in turn
/// and finishes; and once finished, any later event (another shutdown request)
/// runs nothing.
pub proof fn lemma_hooks_run_exactly_once(n: usize, later: Seq<ShutdownEvent>, i: int, j: int)
    ensures
        ({
            let s = PluginShutdown { stage: ShutdownStage::Running, hook_count: n, next_hook: 0 };
            let ev = orderly_events(n as nat);
            let done = run_events(s, ev);
            &&& action_at(s, ev, 0) == ShutdownAction::SignalDisable
            &&& action_at(s, ev, 1) == ShutdownAction::AwaitTasks
            &&& 0 <= i < n ==> action_at(s, ev, 2 + i) == ShutdownAction::RunHook(i as usize)
            &&& action_at(s, ev, 2 + n) == ShutdownAction::Finished
            &&& done.stage == ShutdownStage::Done
            &&& 0 <= j < later.len() ==> action_at(done, later, j) == ShutdownAction::Ignore
        }),
{
    let s = PluginShutdown { stage: ShutdownStage::Running, hook_count: n, next_hook: 0 };
    let ev = orderly_events(n as nat);
    assert(ev.subrange(0, 0) =~= Seq::<ShutdownEvent>::empty());
    lemma_run_prefix(s, ev, 0);
    lemma_run_prefix(s, ev, 1);
    lemma_run_prefix(s, ev, 2);
    if 0 < i < n {
        lemma_orderly_state(n, i - 1);
        assert(ev[2 + i] == ShutdownEvent::HookFinished);
    }
    if n > 0 {
        lemma_orderly_state(n, n - 1);
        assert(ev[2 + n] == ShutdownEvent::HookFinished);
    }
    lemma_orderly_state(n, n as int);
    assert(ev.subrange(0, 3 + n) =~= ev);
    if 0 <= j < later.len() {
        lemma_done_stays(run_events(s, ev), later, j);
    }
}

proof fn lemma_done_stays(s: PluginShutdown, events: Seq<ShutdownEvent>, j: int)
    requires
        s.stage == ShutdownStage::Done,
        0 <= j <= events.len(),
    ensures
        run_events(s, events.subrange(0, j)) == s,
        j < events.len() ==> action_at(s, events, j) == ShutdownAction::Ignore,
    decreases j,
{
    if j == 0 {
        assert(events.subrange(0, 0) =~= Seq::<ShutdownEvent>::empty());
    } else {
        lemma_done_stays(s, events, j - 1);
        lemma_run_prefix(s, events, j - 1);
    }
}

} // verus!
