//! The listener lifecycle: the single server-task slot, restart with
//! unconditional teardown of the predecessor, and the tray-driven gate.

use vstd::prelude::*;
use crate::settings::HttpSettings;
use vstd::string::StringExecFns;

verus! {

/// What a restart asks the shell to do: abort the previous server task,
/// if one was held, then run the freshly spawned one.
pub struct RestartAction {
    /// The handle of the task to abort, taken out of the slot.
    pub abort: Option<u64>,
    /// The handle of the task just spawned into the slot.
    pub spawn_handle: u64,
}

/// Bookkeeping for the one server-task slot.  Handles are numbered in
/// spawn order; `retired` collects every handle that has been aborted,
/// so a handle is never resurrected.
pub struct ListenerManager {
    /// The handle held in the slot, if a task was spawned.
    slot: Option<u64>,
    /// The next handle to hand out.
    next_handle: u64,
    /// The binding the running task serves, if its bind succeeded.
    serving: Option<HttpSettings>,
    /// Every handle that has been aborted.
    retired: Ghost<Set<u64>>,
}

impl ListenerManager {
    /// The bookkeeping is consistent: the held handle was handed out
    /// and never aborted, aborted handles were handed out, and only a
    /// held task can be serving.
    pub closed spec fn wf(self) -> bool {
        &&& (self.slot matches Some(h) ==> h < self.next_handle && !self.retired@.contains(h))
        &&& (forall|h: u64| self.retired@.contains(h) ==> h < self.next_handle)
        &&& (self.serving is Some ==> self.slot is Some)
    }

    /// How many server tasks are live: the slot holds at most one, so
    /// this never exceeds one.
    pub open spec fn live_count(self) -> nat {
        if self.current() is Some {
            1nat
        } else {
            0nat
        }
    }

    /// The handle currently held, if any.
    pub closed spec fn current(self) -> Option<u64> {
        self.slot
    }

    /// The binding the running task serves, if its bind succeeded.
    pub closed spec fn spec_serving(self) -> Option<HttpSettings> {
        self.serving
    }

    /// How many tasks have been spawned so far (a machine limit: the
    /// handle counter must not wrap).
    pub closed spec fn spawned(self) -> u64 {
        self.next_handle
    }

    /// No task spawned yet.
    pub fn new() -> (m: ListenerManager)
        ensures
            m.wf(),
            m.current() is None,
            m.spec_serving() is None,
            m.live_count() == 0,
            m.spawned() == 0,
    {
        ListenerManager { slot: None, next_handle: 0, serving: None, retired: Ghost(Set::empty()) }
    }

    /// How many tasks have been spawned so far, observably: the caller
    /// guards the restart's counter limit with this.
    pub fn spawn_count(&self) -> (n: u64)
        ensures
            n == self.spawned(),
    {
        self.next_handle
    }

    /// The handle currently held, observably.
    pub fn current_handle(&self) -> (h: Option<u64>)
        ensures
            h == self.current(),
    {
        self.slot
    }

    /// The binding the running task serves, observably.
    pub fn serving_binding(&self) -> (s: &Option<HttpSettings>)
        ensures
            *s == self.spec_serving(),
    {
        &self.serving
    }

    /// Replaces the slot: the previous task, if any, is aborted
    /// unconditionally — even when the new bind then fails — and the
    /// fresh task takes the slot.  `bind_ok` is whether the new task's
    /// bind succeeds; on failure the service stays down until the next
    /// restart, an accepted policy.
    pub fn restart(&mut self, binding: HttpSettings, bind_ok: bool) -> (act: RestartAction)
        requires
            old(self).wf(),
            old(self).spawned() < u64::MAX,
        ensures
            final(self).wf(),
            restart_transition(*old(self), *final(self), act, binding, bind_ok),
            final(self).live_count() <= 1,
            final(self).spawned() == old(self).spawned() + 1,
    {
        let aborted = self.slot;
        match aborted {
            Some(h) => {
                self.retired = Ghost(self.retired@.insert(h));
            },
            None => {},
        }
        let h = self.next_handle;
        self.next_handle = h + 1;
        self.slot = Some(h);
        self.serving = if bind_ok {
            Some(binding)
        } else {
            None
        };
        RestartAction { abort: aborted, spawn_handle: h }
    }
}

/// One restart step: the old task is aborted unconditionally and
/// retired, a fresh handle takes the slot, and the new binding is
/// served exactly when its bind succeeded.
pub open spec fn restart_transition(
    pre: ListenerManager,
    post: ListenerManager,
    act: RestartAction,
    binding: HttpSettings,
    bind_ok: bool,
) -> bool {
    &&& act.abort == pre.current()
    &&& post.current() == Some(act.spawn_handle)
    &&& (pre.current() matches Some(h) ==> act.spawn_handle != h)
    &&& post.spec_serving() == (if bind_ok {
        Some(binding)
    } else {
        None::<HttpSettings>
    })
}

/// Two restarts in quick succession never leave two listeners: the
/// second aborts exactly the task the first spawned, at most one task
/// is live after each step, and the final state serves exactly the last
/// applied binding — or nothing, if its bind failed.
pub proof fn lemma_restart_serializes(
    m0: ListenerManager,
    m1: ListenerManager,
    m2: ListenerManager,
    a1: RestartAction,
    a2: RestartAction,
    b1: HttpSettings,
    ok1: bool,
    b2: HttpSettings,
    ok2: bool,
)
    requires
        restart_transition(m0, m1, a1, b1, ok1),
        restart_transition(m1, m2, a2, b2, ok2),
    ensures
        m1.live_count() <= 1,
        m2.live_count() <= 1,
        a2.abort == Some(a1.spawn_handle),
        m2.current() == Some(a2.spawn_handle),
        m2.spec_serving() == (if ok2 {
            Some(b2)
        } else {
            None::<HttpSettings>
        }),
{
}

/// The identifiers of the tray menu's entries, as actions.
#[derive(Clone, Copy, Debug, PartialEq, Eq, Structural)]
pub enum TrayAction {
    Quit,
    OpenWindow,
    StartListening,
    StopListening,
    /// An identifier this menu does not know; ignored.
    Other,
}

/// Maps a tray menu event identifier to its action; unknown identifiers
/// do nothing.
pub fn parse_tray_event(event_id: &str) -> (a: TrayAction)
    ensures
        event_id@ == "quit"@ ==> a == TrayAction::Quit,
        event_id@ == "open_window"@ ==> a == TrayAction::OpenWindow,
        event_id@ == "start_listening"@ ==> a == TrayAction::StartListening,
        event_id@ == "stop_listening"@ ==> a == TrayAction::StopListening,
        event_id@ != "quit"@ && event_id@ != "open_window"@ && event_id@ != "start_listening"@
            && event_id@ != "stop_listening"@ ==> a == TrayAction::Other,
{
    proof {
        reveal_strlit("quit");
        reveal_strlit("open_window");
        reveal_strlit("start_listening");
        reveal_strlit("stop_listening");
        assert("quit"@.len() == 4);
        assert("open_window"@.len() == 11);
        assert("start_listening"@.len() == 15);
        assert("stop_listening"@.len() == 14);
    }
    let id = String::from_str(event_id);
    if id == String::from_str("quit") {
        TrayAction::Quit
    } else if id == String::from_str("open_window") {
        TrayAction::OpenWindow
    } else if id == String::from_str("start_listening") {
        TrayAction::StartListening
    } else if id == String::from_str("stop_listening") {
        TrayAction::StopListening
    } else {
        TrayAction::Other
    }
}

/// The listening flag after a tray action: start turns it on, stop
/// turns it off, and every other action leaves it alone.
pub fn gate_after_tray(action: &TrayAction, gate_open: bool) -> (g: bool)
    ensures
        *action is StartListening ==> g,
        *action is StopListening ==> !g,
        !(*action is StartListening) && !(*action is StopListening) ==> g == gate_open,
{
    match action {
        TrayAction::StartListening => true,
        TrayAction::StopListening => false,
        _ => gate_open,
    }
}

/// Which tray menu entries are enabled for a gate state: `start` when
/// closed, `stop` when open.
pub fn menu_flags(gate_open: bool) -> (f: (bool, bool))
    ensures
        f.0 == !gate_open,
        f.1 == gate_open,
{
    (!gate_open, gate_open)
}

} // verus!
