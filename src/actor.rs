use vstd::prelude::*;
use crate::command::ReplCommand;
use crate::engine::{render_reply, reply_text, EngineError};
use crate::request::{request_for, Request};

verus! {

/// Where the dispatch actor stands.
#[derive(Clone, Copy, Debug, PartialEq, Eq, Structural)]
pub enum Phase {
    /// Waiting on the work queue.
    Idle,
    /// Running exactly one command.
    Executing,
    /// The queue is closed; remaining items are still served.
    Draining,
    /// Terminal: the closed queue has been emptied.
    Stopped,
}

/// Abstract state of the actor. `accepted` lists the reply handles of the
/// commands taken into flight, in order; `replied` those whose execution has
/// completed, in order.
pub struct ActorView<H> {
    pub phase: Phase,
    pub closed: bool,
    pub current: Option<H>,
    pub accepted: Seq<H>,
    pub replied: Seq<H>,
}

impl<H> ActorView<H> {
    pub open spec fn initial() -> Self {
        ActorView {
            phase: Phase::Idle,
            closed: false,
            current: None,
            accepted: Seq::empty(),
            replied: Seq::empty(),
        }
    }

    pub open spec fn wf(self) -> bool {
        &&& (self.phase == Phase::Executing) == (self.current is Some)
        &&& (self.phase == Phase::Idle) ==> !self.closed
        &&& (self.phase == Phase::Draining || self.phase == Phase::Stopped) ==> self.closed
        &&& self.replied.len() <= self.accepted.len()
        &&& self.replied == self.accepted.take(self.replied.len() as int)
        &&& self.phase == Phase::Executing ==> (self.replied.len() + 1 == self.accepted.len()
            && self.current == Some(self.accepted.last()))
        &&& self.phase != Phase::Executing ==> self.replied.len() == self.accepted.len()
    }

    /// Ready to take the next queued item.
    pub open spec fn waiting(self) -> bool {
        self.phase == Phase::Idle || self.phase == Phase::Draining
    }

    pub open spec fn after_accept(self, reply: H) -> Self {
        ActorView {
            phase: Phase::Executing,
            closed: self.closed,
            current: Some(reply),
            accepted: self.accepted.push(reply),
            replied: self.replied,
        }
    }

    pub open spec fn after_finish(self) -> Self {
        ActorView {
            phase: if self.closed { Phase::Draining } else { Phase::Idle },
            closed: self.closed,
            current: None,
            accepted: self.accepted,
            replied: self.replied.push(self.current.unwrap()),
        }
    }

    pub open spec fn after_close(self) -> Self {
        ActorView { phase: Phase::Draining, closed: true, ..self }
    }

    pub open spec fn after_drain(self) -> Self {
        ActorView { phase: Phase::Stopped, ..self }
    }

    /// Takes each handle in turn into flight and completes it.
    pub open spec fn serve_all(self, replies: Seq<H>) -> Self
        decreases replies.len(),
    {
        if replies.len() == 0 {
            self
        } else {
            self.after_accept(replies[0]).after_finish().serve_all(replies.drop_first())
        }
    }
}

/// The single worker that owns the engine: it takes one queued command at a
/// time, hands back the request to run, and pairs the outcome with the reply
/// handle of that same command.
pub struct Actor<H> {
    phase: Phase,
    closed: bool,
    current: Option<H>,
    accepted: Ghost<Seq<H>>,
    replied: Ghost<Seq<H>>,
}

impl<H> View for Actor<H> {
    type V = ActorView<H>;

    closed spec fn view(&self) -> ActorView<H> {
        ActorView {
            phase: self.phase,
            closed: self.closed,
            current: self.current,
            accepted: self.accepted@,
            replied: self.replied@,
        }
    }
}

impl<H> Actor<H> {
    pub fn new() -> (r: Self)
        ensures
            r@ == ActorView::<H>::initial(),
            r@.wf(),
    {
        let r = Actor {
            phase: Phase::Idle,
            closed: false,
            current: None,
            accepted: Ghost(Seq::empty()),
            replied: Ghost(Seq::empty()),
        };
        assert(r@.replied =~= r@.accepted.take(0));
        r
    }

    pub fn phase(&self) -> (r: Phase)
        ensures
            r == self@.phase,
    {
        self.phase
    }

    /// Whether the actor can take the next queued item.
    pub fn is_waiting(&self) -> (r: bool)
        ensures
            r == self@.waiting(),
    {
        match self.phase {
            Phase::Idle | Phase::Draining => true,
            _ => false,
        }
    }

    /// Takes a dequeued command into flight, keeping its reply handle, and
    /// returns the request that carries it out.
    pub fn accept(&mut self, cmd: ReplCommand, reply: H) -> (r: Request)
        requires
            old(self)@.wf(),
            old(self)@.waiting(),
        ensures
            final(self)@ == old(self)@.after_accept(reply),
            final(self)@.wf(),
            request_for(cmd, r),
    {
        let ghost before = self@;
        self.phase = Phase::Executing;
        self.current = Some(reply);
        self.accepted = Ghost(self.accepted@.push(reply));
        assert(self@.replied =~= self@.accepted.take(self@.replied.len() as int));
        assert(self@ == before.after_accept(reply));
        cmd.request()
    }

    /// Completes the command in flight with the engine's outcome. Returns the
    /// handle of that command and the text to deliver to it; a failure is
    /// rendered, not propagated.
    pub fn finish(&mut self, outcome: Result<String, EngineError>) -> (r: (H, String))
        requires
            old(self)@.wf(),
            old(self)@.phase == Phase::Executing,
        ensures
            old(self)@.current == Some(r.0),
            r.1@ == reply_text(outcome),
            final(self)@ == old(self)@.after_finish(),
            final(self)@.wf(),
    {
        let ghost before = self@;
        let reply = self.current.take().unwrap();
        self.phase = if self.closed { Phase::Draining } else { Phase::Idle };
        self.replied = Ghost(self.replied@.push(reply));
        assert(self@.replied =~= self@.accepted.take(self@.replied.len() as int));
        assert(self@ == before.after_finish());
        (reply, render_reply(outcome))
    }

    /// No producer is left: serve whatever remains queued, then stop.
    pub fn close(&mut self)
        requires
            old(self)@.wf(),
            old(self)@.phase == Phase::Idle,
        ensures
            final(self)@ == old(self)@.after_close(),
            final(self)@.wf(),
    {
        self.phase = Phase::Draining;
        self.closed = true;
    }

    /// The closed queue is empty: stop for good.
    pub fn stop(&mut self)
        requires
            old(self)@.wf(),
            old(self)@.phase == Phase::Draining,
        ensures
            final(self)@ == old(self)@.after_drain(),
            final(self)@.wf(),
    {
        self.phase = Phase::Stopped;
    }
}

/// One command taken into flight and completed keeps the actor well formed
/// and ready for the next item, with the same closure status.
pub proof fn lemma_one_round<H>(v: ActorView<H>, reply: H)
    requires
        v.wf(),
        v.waiting(),
    ensures
        v.after_accept(reply).wf(),
        v.after_accept(reply).current == Some(reply),
        v.after_accept(reply).after_finish().wf(),
        v.after_accept(reply).after_finish().waiting(),
        v.after_accept(reply).after_finish().closed == v.closed,
        v.after_accept(reply).after_finish().current is None,
        v.after_accept(reply).after_finish().replied == v.replied.push(reply),
        v.after_accept(reply).after_finish().accepted == v.accepted.push(reply),
{
    let w = v.after_accept(reply);
    assert(w.replied =~= w.accepted.take(w.replied.len() as int));
    let u = w.after_finish();
    assert(u.replied =~= u.accepted.take(u.replied.len() as int));
}

/// Commands are completed in the order they were taken from the queue: when
/// the handles of any number of commands are served one after another, the
/// completions come in exactly that order, each after the ones before it.
pub proof fn lemma_replies_in_submission_order<H>(v: ActorView<H>, replies: Seq<H>)
    requires
        v.wf(),
        v.waiting(),
    ensures
        v.serve_all(replies).wf(),
        v.serve_all(replies).waiting(),
        v.serve_all(replies).closed == v.closed,
        v.serve_all(replies).replied == v.replied + replies,
        v.serve_all(replies).accepted == v.accepted + replies,
    decreases replies.len(),
{
    if replies.len() == 0 {
        assert(v.replied + replies =~= v.replied);
        assert(v.accepted + replies =~= v.accepted);
    } else {
        lemma_one_round(v, replies[0]);
        let u = v.after_accept(replies[0]).after_finish();
        lemma_replies_in_submission_order(u, replies.drop_first());
        assert(u.replied + replies.drop_first() =~= v.replied + replies);
        assert(u.accepted + replies.drop_first() =~= v.accepted + replies);
    }
}

/// At most one command is in flight, and everything completed so far is a
/// prefix, in order, of what was taken from the queue.
pub proof fn lemma_single_flight<H>(v: ActorView<H>)
    requires
        v.wf(),
    ensures
        v.accepted.len() <= v.replied.len() + 1,
        v.replied == v.accepted.take(v.replied.len() as int),
        v.phase == Phase::Executing ==> v.current == Some(v.accepted[v.replied.len() as int]),
{
}

/// Two producers whose commands are queued one after the other each get the
/// completion of their own command: the first in flight carries the first
/// handle, the second the second, and neither is handed the other's.
pub proof fn lemma_no_cross_talk<H>(v: ActorView<H>, first: H, second: H)
    requires
        v.wf(),
        v.waiting(),
    ensures
        v.after_accept(first).current == Some(first),
        v.after_accept(first).after_finish().after_accept(second).current == Some(second),
        v.after_accept(first).after_finish().after_accept(second).after_finish().replied
            == v.replied.push(first).push(second),
{
    lemma_one_round(v, first);
    lemma_one_round(v.after_accept(first).after_finish(), second);
}

/// Completing a command leaves nothing of it in the actor, whatever became of
/// its delivery: the next command taken in is paired with its own handle, and
/// its completion is recorded against that handle.
pub proof fn lemma_abandoned_reply_not_stale<H>(
    v: ActorView<H>,
    abandoned: H,
    next: H,
)
    requires
        v.wf(),
        v.waiting(),
    ensures
        v.after_accept(abandoned).after_finish().current is None,
        v.after_accept(abandoned).after_finish().waiting(),
        v.after_accept(abandoned).after_finish().after_accept(next).current == Some(next),
        v.after_accept(abandoned).after_finish().after_accept(next).after_finish().replied.last()
            == next,
{
    lemma_one_round(v, abandoned);
    lemma_one_round(v.after_accept(abandoned).after_finish(), next);
}

/// A command whose engine call fails with a missing dataset is answered with
/// the rendered error, and the actor goes back to waiting on the queue.
pub proof fn lemma_failure_keeps_serving<H>(v: ActorView<H>, reply: H, message: String)
    requires
        v.wf(),
        v.phase == Phase::Idle,
    ensures
        reply_text(Err(EngineError::NotFound(message))) == "Not found: "@ + message@,
        v.after_accept(reply).after_finish().phase == Phase::Idle,
        v.after_accept(reply).after_finish().wf(),
{
    lemma_one_round(v, reply);
}

} // verus!
