//! The task state machine: a non-leaf future that drives exactly one leaf
//! future to completion and is itself pollable, so it composes like a leaf
//! from the caller's point of view.
//!
//! A task starts in `Start` with no work issued. Its first poll constructs
//! the leaf future and, in the same call, polls it — so the leaf's request
//! is issued before control returns, and a state transition alone never
//! consumes a yield. In `Wait` each poll forwards one read outcome to the
//! owned leaf; when the leaf resolves, the task becomes `Resolved` and hands
//! the decoded text to its caller exactly once. A resolved task must never
//! be polled again; `poll_checked` reports that usage error as a typed
//! result instead of a contract violation.
use crate::future::{Future, IoAction, IoEvent, PollState};
use crate::http::{spec_get_req, Http, HttpFuture, LeafView};
use vstd::prelude::*;

verus! {

/// The states a task passes through: no work issued yet, one outstanding
/// leaf future owned and awaited, or terminally resolved.
enum StateMachine {
    Start,
    Wait(HttpFuture),
    Resolved,
}

/// The mathematical state of a task.
pub ghost enum TaskView {
    Start,
    Wait(LeafView),
    Resolved,
}

/// A cooperative task: a pausable, resumable unit of work expressed as a
/// hand-enumerated state machine, owning at most one leaf future at a time.
pub struct Coroutine {
    state: StateMachine,
}

impl View for Coroutine {
    type V = TaskView;

    closed spec fn view(&self) -> TaskView {
        match self.state {
            StateMachine::Start => TaskView::Start,
            StateMachine::Wait(f) => TaskView::Wait(f@),
            StateMachine::Resolved => TaskView::Resolved,
        }
    }
}

/// The request target that every task asks its leaf future to fetch.
pub open spec fn task_path() -> Seq<char> {
    "/400/helloworld"@
}

/// The task's state after consuming one event.
pub open spec fn task_next(t: TaskView, ev: IoEvent) -> TaskView {
    match t {
        TaskView::Start => TaskView::Wait(
            LeafView { connected: true, done: false, buffer: Seq::<u8>::empty(), path: task_path() },
        ),
        TaskView::Wait(l) => match ev {
            IoEvent::Eof => TaskView::Resolved,
            IoEvent::Failed => TaskView::Resolved,
            IoEvent::Data(b) => TaskView::Wait(
                LeafView { connected: l.connected, done: l.done, buffer: l.buffer + b@, path: l.path },
            ),
            _ => TaskView::Wait(l),
        },
        TaskView::Resolved => t,
    }
}

/// The full step relation of one task poll: how the state advances, and
/// which result and action come back for each event.
pub open spec fn task_polled(
    pre: TaskView,
    post: TaskView,
    ev: IoEvent,
    out: PollState<String>,
    act: IoAction,
) -> bool {
    &&& post == task_next(pre, ev)
    &&& match pre {
        TaskView::Start => {
            // The first poll issues the leaf's request before returning.
            &&& out is NotReady
            &&& act matches IoAction::Send(req) && req@ == spec_get_req(task_path())
        },
        TaskView::Wait(l) => match ev {
            IoEvent::Eof => {
                &&& out matches PollState::Ready(s) && s@ == crate::http::utf8_lossy(l.buffer)
                &&& act is Idle
            },
            IoEvent::Data(_) => out is NotReady && act is Read,
            IoEvent::Interrupted => out is NotReady && act is Read,
            IoEvent::WouldBlock => out is NotReady && act is Idle,
            IoEvent::Failed => out is NotReady && act is Abort,
            IoEvent::Wake => false,
        },
        TaskView::Resolved => false,
    }
}

/// The task's state after consuming a whole sequence of events.
pub open spec fn task_run(t: TaskView, evs: Seq<IoEvent>) -> TaskView
    decreases evs.len(),
{
    if evs.len() == 0 {
        t
    } else {
        task_run(task_next(t, evs[0]), evs.drop_first())
    }
}

/// A task polled in `Start` issues its single leaf future's request before
/// returning control: the full request message is handed out by that very
/// poll, and the task is left awaiting a leaf that is connected with an
/// empty accumulator — so the write precedes every read.
pub proof fn lemma_start_issues_request(
    pre: TaskView,
    post: TaskView,
    ev: IoEvent,
    out: PollState<String>,
    act: IoAction,
)
    requires
        pre is Start,
        task_polled(pre, post, ev, out, act),
    ensures
        out is NotReady,
        act matches IoAction::Send(req) && req@ == spec_get_req(task_path()),
        post matches TaskView::Wait(l) && l.connected && !l.done && l.buffer == Seq::<u8>::empty(),
{
}

/// A task reports `Ready` exactly on the poll that consumes end of stream
/// while it is awaiting its leaf future — and that poll resolves it, so the
/// value is reported exactly once.
pub proof fn lemma_ready_exactly_at_eof(
    pre: TaskView,
    post: TaskView,
    ev: IoEvent,
    out: PollState<String>,
    act: IoAction,
)
    requires
        task_polled(pre, post, ev, out, act),
    ensures
        out is Ready <==> (pre is Wait && ev is Eof),
        out is Ready ==> post is Resolved,
{
}

/// A resolved task admits no poll step at all: there are no state, result
/// and action that stand in the step relation with it.
pub proof fn lemma_resolved_admits_no_poll(
    post: TaskView,
    ev: IoEvent,
    out: PollState<String>,
    act: IoAction,
)
    ensures
        !task_polled(TaskView::Resolved, post, ev, out, act),
{
}

/// While only in-flight events arrive — data, interruptions, the
/// would-block condition — an awaiting task stays awaiting: every such poll
/// reports `NotReady`, and `Ready` can only come later, with end of stream.
pub proof fn lemma_waiting_until_eof(t: TaskView, evs: Seq<IoEvent>)
    requires
        t is Wait,
        forall|i: int| 0 <= i < evs.len() ==> crate::http::mid_stream(#[trigger] evs[i]),
    ensures
        task_run(t, evs) is Wait,
    decreases evs.len(),
{
    if evs.len() != 0 {
        let rest = evs.drop_first();
        assert(crate::http::mid_stream(evs[0]));
        assert forall|i: int| 0 <= i < rest.len() implies crate::http::mid_stream(
            #[trigger] rest[i],
        ) by {
            assert(rest[i] == evs[i + 1]);
            assert(crate::http::mid_stream(evs[i + 1]));
        }
        lemma_waiting_until_eof(task_next(t, evs[0]), rest);
    }
}

/// The one usage error a caller can commit: polling a task that has already
/// resolved.
pub enum PollError {
    AlreadyResolved,
}

impl Coroutine {
    pub fn new() -> (c: Self)
        ensures
            c@ is Start,
            c.inv(),
            !c.resolved(),
            c.accepts(IoEvent::Wake),
    {
        Self { state: StateMachine::Start }
    }

    /// Polls, but first checks for the one usage error a caller can commit:
    /// a task that has already resolved deterministically reports
    /// `AlreadyResolved` — never a new or stale value — and is left as it
    /// is.
    pub fn poll_checked(&mut self, ev: IoEvent) -> (r: Result<
        (PollState<String>, IoAction),
        PollError,
    >)
        requires
            old(self).inv(),
            old(self)@ is Resolved || old(self).accepts(ev),
        ensures
            final(self).inv(),
            old(self)@ is Resolved ==> r is Err && final(self)@ == old(self)@,
            !(old(self)@ is Resolved) ==> (r matches Ok(p) && task_polled(
                old(self)@,
                final(self)@,
                ev,
                p.0,
                p.1,
            )),
    {
        let already = match &self.state {
            StateMachine::Resolved => true,
            _ => false,
        };
        if already {
            Err(PollError::AlreadyResolved)
        } else {
            Ok(self.poll(ev))
        }
    }
}

impl Future for Coroutine {
    type Output = String;

    /// While a leaf future is owned, its request is out, it has not yet
    /// resolved, and it carries the task's fixed target.
    open spec fn inv(&self) -> bool {
        self@ matches TaskView::Wait(l) ==> l.connected && !l.done && l.path == task_path()
    }

    open spec fn resolved(&self) -> bool {
        self@ is Resolved
    }

    /// Before any work is issued only the bare `Wake` is meaningful; while
    /// waiting, only read outcomes are.
    open spec fn accepts(&self, ev: IoEvent) -> bool {
        match self@ {
            TaskView::Start => ev is Wake,
            TaskView::Wait(_) => !(ev is Wake),
            TaskView::Resolved => false,
        }
    }

    open spec fn polled(
        pre: Self,
        post: Self,
        ev: IoEvent,
        out: PollState<String>,
        act: IoAction,
    ) -> bool {
        task_polled(pre@, post@, ev, out, act)
    }

    fn poll(&mut self, ev: IoEvent) -> (r: (PollState<String>, IoAction)) {
        let mut state = StateMachine::Resolved;
        core::mem::swap(&mut state, &mut self.state);
        match state {
            StateMachine::Start => {
                // Construct the leaf and poll it in the same call: the
                // transition alone consumes no yield, and the request goes
                // out before control returns.
                let mut fut = Http::new("/400/helloworld");
                let r = fut.poll(ev);
                self.state = StateMachine::Wait(fut);
                r
            },
            StateMachine::Wait(mut fut) => {
                let (out, act) = fut.poll(ev);
                match out {
                    PollState::Ready(data) => {
                        self.state = StateMachine::Resolved;
                        (PollState::Ready(data), act)
                    },
                    PollState::NotReady => {
                        match act {
                            IoAction::Abort => {
                                self.state = StateMachine::Resolved;
                                (PollState::NotReady, IoAction::Abort)
                            },
                            _ => {
                                self.state = StateMachine::Wait(fut);
                                (PollState::NotReady, act)
                            },
                        }
                    },
                }
            },
            StateMachine::Resolved => {
                proof {
                    assert(false);
                }
                vstd::pervasive::unreached()
            },
        }
    }
}

/// The root task of this core: a coroutine, ready to be driven by an
/// executor.
pub fn async_main_custom() -> (c: Coroutine)
    ensures
        c@ is Start,
        c.inv(),
        !c.resolved(),
        c.accepts(IoEvent::Wake),
{
    Coroutine::new()
}

} // verus!
