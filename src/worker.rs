use vstd::prelude::*;

verus! {

/// Where the UI worker stands in its loop.
#[derive(Clone, Copy, Debug, PartialEq, Eq, Structural)]
pub enum WorkerPhase {
    /// At the top of an iteration: the queued input events are to be drained.
    Ready,
    /// Idle: nothing was queued and nothing is pending; parked on a blocking receive.
    Blocked,
    /// A batch was handed out to be applied; the per-frame callback follows.
    Applying,
    /// The UI context is to be asked for a new primitive snapshot.
    Rendering,
    /// Terminal: a drain or a blocking receive found the input channel closed,
    /// or a snapshot could not be delivered.
    Stopped,
}

/// What the caller observed after carrying out the worker's last action.
pub enum WorkerEvent<E> {
    /// The input events that a non-blocking drain of the channel returned,
    /// in arrival order, and whether the drain ended because the channel was
    /// closed rather than merely empty (answers `Drain`).
    Drained { events: Vec<E>, closed: bool },
    /// The result of a blocking receive: `None` when the channel closed
    /// (answers `Wait`).
    Received(Option<E>),
    /// The batch was applied; the per-frame callback reported whether it
    /// needs another frame (answers `Apply`).
    FrameDone(bool),
    /// `None` when the UI context had no new snapshot; `Some(ok)` when it had
    /// one, with `ok` telling whether sending it and waking the presentation
    /// thread both succeeded (answers `Render`).
    Rendered(Option<bool>),
}

/// What the worker asks its caller to do next.
#[derive(Debug)]
pub enum WorkerAction<E> {
    /// Take every queued input event without blocking.
    Drain,
    /// Block until an input event arrives or the channel closes.
    Wait,
    /// Apply these events to the UI context in this order, then run the
    /// per-frame callback.
    Apply(Vec<E>),
    /// Ask the UI context for a snapshot if it changed; send it and wake the
    /// presentation thread.
    Render,
    /// The channel closed: apply these last events to the UI context in this
    /// order, then leave the loop without running a frame or sending anything.
    Finish(Vec<E>),
    /// Leave the loop.
    Stop,
}

/// The shape of an action, without its payload.
#[derive(Clone, Copy, Debug, PartialEq, Eq, Structural)]
pub enum ActionKind {
    Drain,
    Wait,
    Apply,
    Render,
    Finish,
    Stop,
}

/// The decisions of the UI worker loop, as a state machine from observed
/// events to actions.
#[derive(Clone, Copy, Debug, PartialEq, Eq, Structural)]
pub struct UiWorker {
    pub phase: WorkerPhase,
    pub needs_update: bool,
}

/// Whether `ev` answers the action that a worker in `s` last asked for.
pub open spec fn accepts<E>(s: UiWorker, ev: WorkerEvent<E>) -> bool {
    match ev {
        WorkerEvent::Drained { .. } => s.phase == WorkerPhase::Ready,
        WorkerEvent::Received(_) => s.phase == WorkerPhase::Blocked,
        WorkerEvent::FrameDone(_) => s.phase == WorkerPhase::Applying,
        WorkerEvent::Rendered(_) => s.phase == WorkerPhase::Rendering,
    }
}

/// The worker parks only when nothing is queued and no update is pending.
pub open spec fn parks<E>(s: UiWorker, batch: Seq<E>) -> bool {
    batch.len() == 0 && !s.needs_update
}

/// The state after `ev`, for an event that `s` accepts.
pub open spec fn next_state<E>(s: UiWorker, ev: WorkerEvent<E>) -> UiWorker {
    match ev {
        WorkerEvent::Drained { events, closed } => if closed {
            UiWorker { phase: WorkerPhase::Stopped, needs_update: s.needs_update }
        } else if parks(s, events@) {
            UiWorker { phase: WorkerPhase::Blocked, needs_update: s.needs_update }
        } else {
            UiWorker { phase: WorkerPhase::Applying, needs_update: events@.len() > 0 }
        },
        WorkerEvent::Received(r) => match r {
            Some(_) => UiWorker { phase: WorkerPhase::Applying, needs_update: true },
            None => UiWorker { phase: WorkerPhase::Stopped, needs_update: s.needs_update },
        },
        WorkerEvent::FrameDone(active) => UiWorker {
            phase: WorkerPhase::Rendering,
            needs_update: active || s.needs_update,
        },
        WorkerEvent::Rendered(r) => match r {
            Some(false) => UiWorker { phase: WorkerPhase::Stopped, needs_update: s.needs_update },
            _ => UiWorker { phase: WorkerPhase::Ready, needs_update: s.needs_update },
        },
    }
}

/// The action that a worker in `s` asks for in answer to `ev`: a drain that
/// finds the channel closed finishes; otherwise the new phase decides.
pub open spec fn next_action<E>(s: UiWorker, ev: WorkerEvent<E>) -> ActionKind {
    match ev {
        WorkerEvent::Drained { closed, .. } => if closed {
            ActionKind::Finish
        } else {
            action_for(next_state(s, ev).phase)
        },
        _ => action_for(next_state(s, ev).phase),
    }
}

/// The action that a worker asks for on entering phase `p`.
pub open spec fn action_for(p: WorkerPhase) -> ActionKind {
    match p {
        WorkerPhase::Ready => ActionKind::Drain,
        WorkerPhase::Blocked => ActionKind::Wait,
        WorkerPhase::Applying => ActionKind::Apply,
        WorkerPhase::Rendering => ActionKind::Render,
        WorkerPhase::Stopped => ActionKind::Stop,
    }
}

/// The input events that the action answering `ev` asks to apply, in order.
pub open spec fn applied_by<E>(s: UiWorker, ev: WorkerEvent<E>) -> Seq<E> {
    match ev {
        WorkerEvent::Drained { events, closed } => if !closed && parks(s, events@) {
            seq![]
        } else {
            events@
        },
        WorkerEvent::Received(r) => match r {
            Some(e) => seq![e],
            None => seq![],
        },
        _ => seq![],
    }
}

/// The input events that `ev` hands to the worker.
pub open spec fn fed<E>(ev: WorkerEvent<E>) -> Seq<E> {
    match ev {
        WorkerEvent::Drained { events, .. } => events@,
        WorkerEvent::Received(r) => match r {
            Some(e) => seq![e],
            None => seq![],
        },
        _ => seq![],
    }
}

impl<E> WorkerAction<E> {
    pub open spec fn kind(&self) -> ActionKind {
        match self {
            WorkerAction::Drain => ActionKind::Drain,
            WorkerAction::Wait => ActionKind::Wait,
            WorkerAction::Apply(_) => ActionKind::Apply,
            WorkerAction::Render => ActionKind::Render,
            WorkerAction::Finish(_) => ActionKind::Finish,
            WorkerAction::Stop => ActionKind::Stop,
        }
    }

    /// The events this action asks to apply, in order.
    pub open spec fn applied(&self) -> Seq<E> {
        match self {
            WorkerAction::Apply(b) => b@,
            WorkerAction::Finish(b) => b@,
            _ => seq![],
        }
    }
}

impl UiWorker {
    /// A worker whose UI context has just been built and initialised: it
    /// drains first and runs one frame even when nothing is queued.
    pub fn new() -> (r: Self)
        ensures
            r.phase == WorkerPhase::Ready,
            r.needs_update,
    {
        UiWorker { phase: WorkerPhase::Ready, needs_update: true }
    }

    /// Whether the worker reached its terminal state.
    pub fn is_stopped(&self) -> (r: bool)
        ensures
            r == (self.phase == WorkerPhase::Stopped),
    {
        match self.phase {
            WorkerPhase::Stopped => true,
            _ => false,
        }
    }

    /// Takes what the caller observed and says what to do next.
    pub fn step<E>(&mut self, ev: WorkerEvent<E>) -> (r: WorkerAction<E>)
        requires
            accepts(*old(self), ev),
        ensures
            *final(self) == next_state(*old(self), ev),
            r.kind() == next_action(*old(self), ev),
            r.applied() == applied_by(*old(self), ev),
    {
        match ev {
            WorkerEvent::Drained { events: batch, closed } => {
                if closed {
                    self.phase = WorkerPhase::Stopped;
                    WorkerAction::Finish(batch)
                } else if batch.len() == 0 && !self.needs_update {
                    self.phase = WorkerPhase::Blocked;
                    WorkerAction::Wait
                } else {
                    self.phase = WorkerPhase::Applying;
                    self.needs_update = batch.len() > 0;
                    WorkerAction::Apply(batch)
                }
            },
            WorkerEvent::Received(r) => match r {
                Some(e) => {
                    self.phase = WorkerPhase::Applying;
                    self.needs_update = true;
                    WorkerAction::Apply(vec![e])
                },
                None => {
                    self.phase = WorkerPhase::Stopped;
                    WorkerAction::Stop
                },
            },
            WorkerEvent::FrameDone(active) => {
                self.phase = WorkerPhase::Rendering;
                self.needs_update = active || self.needs_update;
                WorkerAction::Render
            },
            WorkerEvent::Rendered(r) => match r {
                Some(false) => {
                    self.phase = WorkerPhase::Stopped;
                    WorkerAction::Stop
                },
                _ => {
                    self.phase = WorkerPhase::Ready;
                    WorkerAction::Drain
                },
            },
        }
    }
}

/// Whether `evs`, fed one after the other from `s`, each answer the action
/// asked for before them.
pub open spec fn follows<E>(s: UiWorker, evs: Seq<WorkerEvent<E>>) -> bool
    decreases evs.len(),
{
    evs.len() == 0 || (accepts(s, evs[0]) && follows(next_state(s, evs[0]), evs.drop_first()))
}

/// Every input event handed to the worker along `evs`, in order.
pub open spec fn all_fed<E>(evs: Seq<WorkerEvent<E>>) -> Seq<E>
    decreases evs.len(),
{
    if evs.len() == 0 {
        seq![]
    } else {
        fed(evs[0]) + all_fed(evs.drop_first())
    }
}

/// Every input event that the worker asked to apply along `evs`, started in
/// `s`, in the order of its actions.
pub open spec fn all_applied<E>(s: UiWorker, evs: Seq<WorkerEvent<E>>) -> Seq<E>
    decreases evs.len(),
{
    if evs.len() == 0 {
        seq![]
    } else {
        applied_by(s, evs[0]) + all_applied(next_state(s, evs[0]), evs.drop_first())
    }
}

/// Input events are applied exactly in the order they were received: along
/// any run of the worker, the events it asks to apply are those it was
/// handed, none dropped, none repeated, none reordered.
pub proof fn applies_in_arrival_order<E>(s: UiWorker, evs: Seq<WorkerEvent<E>>)
    requires
        follows(s, evs),
    ensures
        all_applied(s, evs) == all_fed(evs),
    decreases evs.len(),
{
    if evs.len() > 0 {
        applies_in_arrival_order(next_state(s, evs[0]), evs.drop_first());
        match evs[0] {
            WorkerEvent::Drained { events, closed } => {
                if !closed && parks(s, events@) {
                    assert(events@ =~= seq![]);
                }
            },
            _ => {},
        }
    }
}

/// Whether `ev` reports that the input channel closed.
pub open spec fn reports_close<E>(ev: WorkerEvent<E>) -> bool {
    match ev {
        WorkerEvent::Drained { closed, .. } => closed,
        WorkerEvent::Received(r) => r is None,
        _ => false,
    }
}

/// Closing the input channel stops the worker in the very step that observes
/// it, whether it was parked or draining: it asks to finish or to stop, never
/// to render, and accepts no further event, so it attempts no further send
/// or wake-up.
pub proof fn closing_stops_worker<E>(s: UiWorker, ev: WorkerEvent<E>)
    requires
        accepts(s, ev),
        reports_close(ev),
    ensures
        next_state(s, ev).phase == WorkerPhase::Stopped,
        next_action(s, ev) == ActionKind::Finish || next_action(s, ev) == ActionKind::Stop,
        forall|later: WorkerEvent<E>| !#[trigger] accepts(next_state(s, ev), later),
{
}

/// A stopped worker stays stopped: no event is accepted in its terminal state.
pub proof fn stopped_is_terminal<E>(s: UiWorker, ev: WorkerEvent<E>)
    requires
        s.phase == WorkerPhase::Stopped,
    ensures
        !accepts(s, ev),
{
}

} // verus!
